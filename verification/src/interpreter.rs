//! The recursive tree-walking evaluator: the function table built from a
//! program's top-level declarations, expression evaluation against an
//! [`Environment`], and the program entry points.
//!
//! Every function here is verified against the semantic model in
//! [`crate::semantics`]: the returned value (or error) and the final
//! environment are exactly those of [`eval_expr`] at the same fuel bound.
//! Fuel pays for descending into a subexpression, for one round of a loop,
//! and for entering a function body; a run that exhausts it returns `None`
//! instead of an answer. No fuel bound changes what a terminating program
//! yields — it only decides how much of the evaluation is carried out.

use vstd::prelude::*;

use crate::ast::{Expression, Operator, Program, TopLevel, Value};
use crate::environment::Environment;
use crate::errors::{EvalError, EvalErrorSpec};
use crate::semantics::{
    apply_operator, bind_params, env_of, eval_expr, eval_exprs, eval_while,
    lemma_prepend_values_compose, lemma_prepend_values_empty, names_of, outcome_view,
    prepend_values, program_outcome, result_of, table_of, FnDef, ListOutcome, Outcome,
};

verus! {

/// The finite map a sequence of table entries denotes: later entries shadow
/// earlier ones with the same name.
pub open spec fn table_map(s: Seq<(String, Vec<String>, Expression)>) -> Map<Seq<char>, FnDef>
    decreases s.len(),
{
    if s.len() == 0 {
        Map::empty()
    } else {
        table_map(s.drop_last()).insert(
            s.last().0@,
            FnDef { params: names_of(s.last().1@), body: s.last().2 },
        )
    }
}

/// The name-to-definition registry, built once from a program's top-level
/// declarations and read-only during evaluation. Each entry keeps a
/// function's name, parameter names and body.
#[derive(Debug)]
pub struct FunctionTable {
    pub entries: Vec<(String, Vec<String>, Expression)>,
}

impl View for FunctionTable {
    type V = Map<Seq<char>, FnDef>;

    open spec fn view(&self) -> Map<Seq<char>, FnDef> {
        table_map(self.entries@)
    }
}

/// Scan a program's declarations once and register every function
/// definition under its name; of two definitions sharing a name the later
/// one wins. Global variable definitions are passed over. The table takes
/// ownership of the definitions, so the bodies are registered without being
/// copied.
pub fn build_function_table(program: Program) -> (t: FunctionTable)
    ensures
        t@ == table_of(program.definitions@),
{
    let ghost all = program.definitions@;
    let mut defs = program.definitions;
    let mut entries: Vec<(String, Vec<String>, Expression)> = Vec::new();
    let ghost mut done: int = 0;
    proof {
        assert(all.take(0) =~= Seq::<TopLevel>::empty());
        assert(defs@ =~= all.skip(0));
    }
    while defs.len() > 0
        invariant
            0 <= done <= all.len(),
            defs@ == all.skip(done),
            table_map(entries@) == table_of(all.take(done)),
        decreases defs@.len(),
    {
        let d = defs.remove(0);
        let ghost gd = d;
        proof {
            assert(all.skip(done)[0] == all[done]);
            assert(all.skip(done).remove(0) =~= all.skip(done + 1));
        }
        match d {
            TopLevel::FunctionDefinition { name, params, body } => {
                let ghost gname = name;
                let ghost gparams = params;
                let ghost gbody = body;
                let ghost prev = entries@;
                entries.push((name, params, body));
                proof {
                    assert(gd == (TopLevel::FunctionDefinition {
                        name: gname,
                        params: gparams,
                        body: gbody,
                    }));
                    assert(entries@.drop_last() =~= prev);
                    assert(all.take(done + 1).drop_last() =~= all.take(done));
                    assert(all.take(done + 1).last() == all[done]);
                    done = done + 1;
                }
            },
            TopLevel::GlobalVariableDefinition { name: _, initializer: _ } => {
                proof {
                    assert(all.take(done + 1).drop_last() =~= all.take(done));
                    assert(all.take(done + 1).last() == all[done]);
                    done = done + 1;
                }
            },
        }
    }
    proof {
        assert(done == all.len());
        assert(all.take(all.len() as int) =~= all);
    }
    FunctionTable { entries }
}

/// Find the registered definition for `name`, scanning from the end so
/// that the later of two definitions sharing a name wins.
pub fn lookup_function<'a>(table: &'a FunctionTable, name: &String) -> (r: Option<
    &'a (String, Vec<String>, Expression),
>)
    ensures
        match r {
            Some(def) => table@.contains_key(name@) && def.0@ == name@ && names_of(def.1@)
                == table@[name@].params && def.2 == table@[name@].body,
            None => !table@.contains_key(name@),
        },
{
    let mut i: usize = table.entries.len();
    proof {
        assert(table.entries@.take(i as int) =~= table.entries@);
    }
    while i > 0
        invariant
            i <= table.entries.len(),
            table@.contains_key(name@) == table_map(
                table.entries@.take(i as int),
            ).contains_key(name@),
            table@.contains_key(name@) ==> table_map(table.entries@.take(i as int))[name@]
                == table@[name@],
        decreases i,
    {
        i = i - 1;
        proof {
            assert(table.entries@.take(i as int + 1).drop_last() =~= table.entries@.take(
                i as int,
            ));
            assert(table.entries@.take(i as int + 1).last() == table.entries@[i as int]);
        }
        if table.entries[i].0 == *name {
            return Some(&table.entries[i]);
        }
    }
    proof {
        assert(table.entries@.take(0) =~= Seq::<(String, Vec<String>, Expression)>::empty());
    }
    None
}

/// Find the function a run starts from: the zero-parameter function named
/// `main`. Without one the run fails with [`EvalError::MissingMain`] — also
/// when a function named `main` exists but takes parameters.
pub fn resolve_main<'a>(table: &'a FunctionTable) -> (r: Result<
    &'a (String, Vec<String>, Expression),
    EvalError,
>)
    ensures
        match r {
            Ok(def) => table@.contains_key("main"@) && table@["main"@].params.len() == 0
                && def.0@ == "main"@ && names_of(def.1@) == table@["main"@].params && def.2
                == table@["main"@].body,
            Err(e) => e@ == EvalErrorSpec::MissingMain && !(table@.contains_key("main"@)
                && table@["main"@].params.len() == 0),
        },
{
    let main_name: String = "main".to_owned();
    match lookup_function(table, &main_name) {
        Some(def) => if def.1.len() == 0 {
            Ok(def)
        } else {
            Err(EvalError::MissingMain)
        },
        None => Err(EvalError::MissingMain),
    }
}

/// Apply a binary operator to two fully evaluated operands, exactly as
/// [`apply_operator`] says: wrapping arithmetic, truncating division that
/// fails on a zero divisor, and `1`/`0` from the relational operators.
pub fn apply_operator_value(op: Operator, a: Value, b: Value) -> (r: Result<
    Value,
    EvalError,
>)
    ensures
        match r {
            Ok(v) => apply_operator(op, a, b) == Ok::<Value, EvalErrorSpec>(v),
            Err(e) => apply_operator(op, a, b) == Err::<Value, EvalErrorSpec>(e@),
        },
{
    match op {
        Operator::Add => Ok(a.wrapping_add(b)),
        Operator::Subtract => Ok(a.wrapping_sub(b)),
        Operator::Multiply => Ok(a.wrapping_mul(b)),
        Operator::Divide => if b == 0 {
            Err(EvalError::DivisionByZero)
        } else {
            match a.checked_div(b) {
                Some(q) => Ok(q),
                None => Ok(i32::MIN),
            }
        },
        Operator::LessThan => Ok(if a < b { 1 } else { 0 }),
        Operator::LessOrEqual => Ok(if a <= b { 1 } else { 0 }),
        Operator::GreaterThan => Ok(if a > b { 1 } else { 0 }),
        Operator::GreaterOrEqual => Ok(if a >= b { 1 } else { 0 }),
        Operator::EqualEqual => Ok(if a == b { 1 } else { 0 }),
        Operator::NotEqual => Ok(if a != b { 1 } else { 0 }),
    }
}

/// Evaluate one expression against an environment and a function table.
/// The returned value or error and the state the environment is left in are
/// exactly those of the semantic model [`eval_expr`] at the same fuel
/// bound; `None` reports that the fuel ran out before an answer was
/// reached.
pub fn evaluate(expression: &Expression, env: &mut Environment, table: &FunctionTable, fuel: u64) -> (r:
    Option<Result<Value, EvalError>>)
    ensures
        outcome_view(r) == result_of(eval_expr(*expression, old(env)@, table@, fuel as nat)),
        final(env)@ == env_of(eval_expr(*expression, old(env)@, table@, fuel as nat)),
    decreases fuel, 0int,
{
    if fuel == 0 {
        return None;
    }
    let sub = fuel - 1;
    match expression {
        Expression::ValueExpression(v) => Some(Ok(*v)),
        Expression::Identifier(name) => match env.lookup(name) {
            Ok(v) => Some(Ok(v)),
            Err(e) => Some(Err(e)),
        },
        Expression::Assignment { name, expr } => match evaluate(&**expr, env, table, sub) {
            Some(Ok(v)) => {
                env.define_or_assign(name, v);
                Some(Ok(v))
            },
            other => other,
        },
        Expression::BinaryExpression { operator, lhs, rhs } => match evaluate(
            &**lhs,
            env,
            table,
            sub,
        ) {
            Some(Ok(a)) => match evaluate(&**rhs, env, table, sub) {
                Some(Ok(b)) => match apply_operator_value(*operator, a, b) {
                    Ok(v) => Some(Ok(v)),
                    Err(e) => Some(Err(e)),
                },
                other => other,
            },
            other => other,
        },
        Expression::BlockExpression { expressions } => match evaluate_list(
            expressions,
            env,
            table,
            sub,
        ) {
            Some(Ok(vs)) => if vs.len() == 0 {
                Some(Ok(1))
            } else {
                Some(Ok(vs[vs.len() - 1]))
            },
            Some(Err(e)) => Some(Err(e)),
            None => None,
        },
        Expression::WhileExpression { condition, body } => {
            let ghost env0 = env@;
            let mut remaining: u64 = sub;
            let mut last: Value = 1;
            loop
                invariant
                    env0 == old(env)@,
                    remaining <= sub,
                    fuel >= 1,
                    sub == fuel - 1,
                    eval_while(**condition, **body, env@, table@, last, remaining as nat)
                        == eval_while(**condition, **body, env0, table@, 1, sub as nat),
                    eval_expr(*expression, env0, table@, fuel as nat) == eval_while(
                        **condition,
                        **body,
                        env0,
                        table@,
                        1,
                        sub as nat,
                    ),
                decreases remaining,
            {
                if remaining == 0 {
                    proof {
                        assert(eval_while(**condition, **body, env@, table@, last, 0nat)
                            == (Outcome::OutOfFuel { env: env@ }));
                    }
                    return None;
                }
                let ghost env_top = env@;
                match evaluate(&**condition, env, table, remaining) {
                    Some(Ok(c)) => {
                        proof {
                            assert(eval_expr(**condition, env_top, table@, remaining as nat)
                                == (Outcome::Value { value: c, env: env@ }));
                        }
                        if c == 0 {
                            proof {
                                assert(eval_while(
                                    **condition,
                                    **body,
                                    env_top,
                                    table@,
                                    last,
                                    remaining as nat,
                                ) == (Outcome::Value { value: last, env: env@ }));
                            }
                            return Some(Ok(last));
                        }
                        let ghost env_mid = env@;
                        match evaluate(&**body, env, table, remaining) {
                            Some(Ok(b)) => {
                                proof {
                                    assert(eval_expr(**body, env_mid, table@, remaining as nat)
                                        == (Outcome::Value { value: b, env: env@ }));
                                    assert(eval_while(
                                        **condition,
                                        **body,
                                        env_top,
                                        table@,
                                        last,
                                        remaining as nat,
                                    ) == eval_while(
                                        **condition,
                                        **body,
                                        env@,
                                        table@,
                                        b,
                                        (remaining - 1) as nat,
                                    ));
                                }
                                last = b;
                                remaining = remaining - 1;
                            },
                            Some(Err(e)) => {
                                proof {
                                    assert(eval_expr(**body, env_mid, table@, remaining as nat)
                                        == (Outcome::Error { error: e@, env: env@ }));
                                    assert(eval_while(
                                        **condition,
                                        **body,
                                        env_top,
                                        table@,
                                        last,
                                        remaining as nat,
                                    ) == (Outcome::Error { error: e@, env: env@ }));
                                }
                                return Some(Err(e));
                            },
                            None => {
                                proof {
                                    assert(eval_expr(**body, env_mid, table@, remaining as nat)
                                        == (Outcome::OutOfFuel { env: env@ }));
                                    assert(eval_while(
                                        **condition,
                                        **body,
                                        env_top,
                                        table@,
                                        last,
                                        remaining as nat,
                                    ) == (Outcome::OutOfFuel { env: env@ }));
                                }
                                return None;
                            },
                        }
                    },
                    Some(Err(e)) => {
                        proof {
                            assert(eval_expr(**condition, env_top, table@, remaining as nat)
                                == (Outcome::Error { error: e@, env: env@ }));
                            assert(eval_while(
                                **condition,
                                **body,
                                env_top,
                                table@,
                                last,
                                remaining as nat,
                            ) == (Outcome::Error { error: e@, env: env@ }));
                        }
                        return Some(Err(e));
                    },
                    None => {
                        proof {
                            assert(eval_expr(**condition, env_top, table@, remaining as nat)
                                == (Outcome::OutOfFuel { env: env@ }));
                            assert(eval_while(
                                **condition,
                                **body,
                                env_top,
                                table@,
                                last,
                                remaining as nat,
                            ) == (Outcome::OutOfFuel { env: env@ }));
                        }
                        return None;
                    },
                }
            }
        },
        Expression::IfExpression { condition, then_clause, else_clause } => match evaluate(
            &**condition,
            env,
            table,
            sub,
        ) {
            Some(Ok(c)) => if c != 0 {
                evaluate(&**then_clause, env, table, sub)
            } else {
                match else_clause {
                    Some(eb) => evaluate(&**eb, env, table, sub),
                    None => Some(Ok(1)),
                }
            },
            other => other,
        },
        Expression::FunctionCall { name, args } => {
            match lookup_function(table, name) {
                None => Some(Err(EvalError::UndefinedFunction { name: name.clone() })),
                Some(def) => {
                    match evaluate_list(args, env, table, sub) {
                        Some(Ok(vals)) => {
                            if vals.len() != def.1.len() {
                                return Some(Err(EvalError::ArityMismatch {
                                    name: name.clone(),
                                    expected: def.1.len(),
                                    actual: vals.len(),
                                }));
                            }
                            let mut callee_env = Environment::new();
                            let mut j: usize = 0;
                            proof {
                                assert(names_of(def.1@).take(0)
                                    =~= Seq::<Seq<char>>::empty());
                                assert(vals@.take(0) =~= Seq::<Value>::empty());
                            }
                            while j < def.1.len()
                                invariant
                                    j <= def.1.len(),
                                    def.1@.len() == vals@.len(),
                                    callee_env@ == bind_params(
                                        names_of(def.1@).take(j as int),
                                        vals@.take(j as int),
                                    ),
                                decreases def.1.len() - j,
                            {
                                callee_env.define_or_assign(&def.1[j], vals[j]);
                                proof {
                                    assert(names_of(def.1@).take(j as int + 1).drop_last()
                                        =~= names_of(def.1@).take(j as int));
                                    assert(vals@.take(j as int + 1).drop_last() =~= vals@.take(
                                        j as int,
                                    ));
                                    assert(names_of(def.1@).take(j as int + 1).last()
                                        == def.1@[j as int]@);
                                    assert(vals@.take(j as int + 1).last() == vals@[j as int]);
                                }
                                j = j + 1;
                            }
                            proof {
                                assert(names_of(def.1@).take(def.1@.len() as int) =~= names_of(
                                    def.1@,
                                ));
                                assert(vals@.take(vals@.len() as int) =~= vals@);
                            }
                            evaluate(&def.2, &mut callee_env, table, sub)
                        },
                        Some(Err(e)) => Some(Err(e)),
                        None => None,
                    }
                },
            }
        },
    }
}

/// Evaluate a list of expressions left to right, each against the
/// environment the previous one left behind, collecting every value;
/// exactly what [`eval_exprs`] says at the same fuel bound.
pub fn evaluate_list(es: &Vec<Expression>, env: &mut Environment, table: &FunctionTable, fuel: u64) -> (r:
    Option<Result<Vec<Value>, EvalError>>)
    ensures
        (match eval_exprs(es@, old(env)@, table@, fuel as nat) {
            ListOutcome::Values { values, env: m } => (r matches Some(rr) && rr matches Ok(vs)
                && vs@ == values) && final(env)@ == m,
            ListOutcome::Error { error, env: m } => (r matches Some(rr) && rr matches Err(e)
                && e@ == error) && final(env)@ == m,
            ListOutcome::OutOfFuel { env: m } => r is None && final(env)@ == m,
        }),
    decreases fuel, 1int,
{
    let ghost env0 = env@;
    let mut vals: Vec<Value> = Vec::new();
    let mut idx: usize = 0;
    proof {
        assert(es@.skip(0) =~= es@);
        lemma_prepend_values_empty(eval_exprs(es@, env0, table@, fuel as nat));
    }
    while idx < es.len()
        invariant
            env0 == old(env)@,
            idx <= es.len(),
            vals@.len() == idx,
            eval_exprs(es@, env0, table@, fuel as nat) == prepend_values(
                vals@,
                eval_exprs(es@.skip(idx as int), env@, table@, fuel as nat),
            ),
        decreases es.len() - idx,
    {
        let ghost rest = es@.skip(idx as int);
        let ghost env_before = env@;
        proof {
            assert(rest[0] == es@[idx as int]);
            assert(rest.drop_first() =~= es@.skip(idx as int + 1));
        }
        match evaluate(&es[idx], env, table, fuel) {
            Some(Ok(v)) => {
                let ghost prev = vals@;
                vals.push(v);
                idx = idx + 1;
                proof {
                    lemma_prepend_values_compose(
                        prev,
                        seq![v],
                        eval_exprs(es@.skip(idx as int), env@, table@, fuel as nat),
                    );
                    assert(prev + seq![v] =~= vals@);
                }
            },
            Some(Err(e)) => {
                proof {
                    assert(eval_expr(es@[idx as int], env_before, table@, fuel as nat)
                        == (Outcome::Error { error: e@, env: env@ }));
                    assert(eval_exprs(rest, env_before, table@, fuel as nat)
                        == (ListOutcome::Error { error: e@, env: env@ }));
                }
                return Some(Err(e));
            },
            None => {
                proof {
                    assert(eval_expr(es@[idx as int], env_before, table@, fuel as nat)
                        == (Outcome::OutOfFuel { env: env@ }));
                    assert(eval_exprs(rest, env_before, table@, fuel as nat)
                        == (ListOutcome::OutOfFuel { env: env@ }));
                }
                return None;
            },
        }
    }
    proof {
        assert(es@.skip(es@.len() as int) =~= Seq::<Expression>::empty());
        assert(vals@ + Seq::<Value>::empty() =~= vals@);
    }
    Some(Ok(vals))
}

/// Run a whole program: build the function table, resolve `main`, and
/// evaluate its body against a fresh, empty environment.
pub fn run(program: Program, fuel: u64) -> (r: Option<Result<Value, EvalError>>)
    ensures
        outcome_view(r) == result_of(program_outcome(
            program.definitions@,
            Map::empty(),
            fuel as nat,
        )),
{
    let ghost defs = program.definitions@;
    let table = build_function_table(program);
    match resolve_main(&table) {
        Err(e) => Some(Err(e)),
        Ok(def) => {
            let mut env = Environment::new();
            evaluate(&def.2, &mut env, &table, fuel)
        },
    }
}

/// The evaluator's state: the environment of the currently executing frame
/// and the function registry of the running program.
#[derive(Debug)]
pub struct Interpreter {
    pub environment: Environment,
    pub function_environment: FunctionTable,
}

impl Interpreter {
    /// An interpreter with an empty environment and an empty function
    /// table.
    pub fn new() -> (r: Interpreter)
        ensures
            r.environment@ == Map::<Seq<char>, Value>::empty(),
            r.function_environment@ == Map::<Seq<char>, FnDef>::empty(),
    {
        let r = Interpreter {
            environment: Environment::new(),
            function_environment: FunctionTable { entries: Vec::new() },
        };
        proof {
            assert(r.function_environment@ =~= Map::<Seq<char>, FnDef>::empty());
        }
        r
    }

    /// Register the program's function definitions, then evaluate the body
    /// of its zero-parameter `main` function against this interpreter's
    /// environment.
    pub fn call_main(&mut self, program: Program, fuel: u64) -> (r: Option<
        Result<Value, EvalError>,
    >)
        ensures
            outcome_view(r) == result_of(program_outcome(
                program.definitions@,
                old(self).environment@,
                fuel as nat,
            )),
            final(self).environment@ == env_of(program_outcome(
                program.definitions@,
                old(self).environment@,
                fuel as nat,
            )),
            final(self).function_environment@ == table_of(program.definitions@),
    {
        let ghost defs = program.definitions@;
        self.function_environment = build_function_table(program);
        match resolve_main(&self.function_environment) {
            Err(e) => Some(Err(e)),
            Ok(def) => evaluate(&def.2, &mut self.environment, &self.function_environment, fuel),
        }
    }

    /// Evaluate one expression against this interpreter's environment and
    /// function table.
    pub fn interpret(&mut self, expression: &Expression, fuel: u64) -> (r: Option<
        Result<Value, EvalError>,
    >)
        ensures
            outcome_view(r) == result_of(eval_expr(
                *expression,
                old(self).environment@,
                old(self).function_environment@,
                fuel as nat,
            )),
            final(self).environment@ == env_of(eval_expr(
                *expression,
                old(self).environment@,
                old(self).function_environment@,
                fuel as nat,
            )),
            final(self).function_environment == old(self).function_environment,
    {
        evaluate(expression, &mut self.environment, &self.function_environment, fuel)
    }
}

} // verus!
