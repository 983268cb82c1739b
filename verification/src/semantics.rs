//! The mathematical meaning of the language: a big-step evaluation function
//! over finite maps, written as specification code. The executable evaluator
//! in [`crate::interpreter`] is verified to return exactly what these
//! functions say.
//!
//! Evaluation of a user program need not terminate (loops and recursion are
//! unrestricted), so the model is indexed by a fuel bound: descending into a
//! subexpression, iterating a loop once, and entering a function body each
//! consume one unit. [`Outcome::OutOfFuel`] marks the one question the model
//! leaves open — what a longer run would have produced — and the executable
//! evaluator reports it as "no answer" rather than as an [`crate::errors::EvalError`].
//!
//! Arithmetic follows two's-complement wrapping on 32 bits, and division
//! truncates toward zero (the one quotient that does not fit, the minimum
//! value divided by minus one, wraps to itself). Relational operators yield
//! `1` or `0`.

use vstd::prelude::*;

use crate::ast::{Expression, Operator, TopLevel, Value};
use crate::errors::{EvalError, EvalErrorSpec};

verus! {

/// What the function table records for one name: the parameter names and
/// the body.
pub struct FnDef {
    pub params: Seq<Seq<char>>,
    pub body: Expression,
}

/// The result of evaluating one expression: a value, an error, or fuel
/// exhaustion — each together with the environment the evaluation left
/// behind.
pub enum Outcome {
    Value { value: Value, env: Map<Seq<char>, Value> },
    Error { error: EvalErrorSpec, env: Map<Seq<char>, Value> },
    OutOfFuel { env: Map<Seq<char>, Value> },
}

/// The result of evaluating a list of expressions left to right: all their
/// values, or the first failure.
pub enum ListOutcome {
    Values { values: Seq<Value>, env: Map<Seq<char>, Value> },
    Error { error: EvalErrorSpec, env: Map<Seq<char>, Value> },
    OutOfFuel { env: Map<Seq<char>, Value> },
}

/// The value or error an [`Outcome`] reports, with fuel exhaustion as
/// `None`.
pub open spec fn result_of(o: Outcome) -> Option<Result<Value, EvalErrorSpec>> {
    match o {
        Outcome::Value { value, env } => Some(Ok(value)),
        Outcome::Error { error, env } => Some(Err(error)),
        Outcome::OutOfFuel { env } => None,
    }
}

/// The environment an [`Outcome`] leaves behind.
pub open spec fn env_of(o: Outcome) -> Map<Seq<char>, Value> {
    match o {
        Outcome::Value { value, env } => env,
        Outcome::Error { error, env } => env,
        Outcome::OutOfFuel { env } => env,
    }
}

/// The abstraction of what the executable evaluator returns, for comparison
/// with [`result_of`].
pub open spec fn outcome_view(r: Option<Result<Value, EvalError>>) -> Option<
    Result<Value, EvalErrorSpec>,
> {
    match r {
        Some(Ok(v)) => Some(Ok(v)),
        Some(Err(e)) => Some(Err(e@)),
        None => None,
    }
}

/// Prefix already-computed values onto the values of a later
/// [`ListOutcome`]; failures pass through unchanged.
pub open spec fn prepend_values(vs: Seq<Value>, o: ListOutcome) -> ListOutcome {
    match o {
        ListOutcome::Values { values, env } => ListOutcome::Values { values: vs + values, env },
        ListOutcome::Error { error, env } => ListOutcome::Error { error, env },
        ListOutcome::OutOfFuel { env } => ListOutcome::OutOfFuel { env },
    }
}

/// The parameter names of a definition, as character sequences.
pub open spec fn names_of(params: Seq<String>) -> Seq<Seq<char>> {
    params.map_values(|p: String| p@)
}

/// The fresh environment a call builds: each parameter bound to the
/// corresponding argument value, and nothing else. With a repeated
/// parameter name the rightmost binding wins, as in the binding store.
pub open spec fn bind_params(params: Seq<Seq<char>>, vals: Seq<Value>) -> Map<Seq<char>, Value>
    decreases params.len(),
{
    if params.len() == 0 || vals.len() == 0 {
        Map::empty()
    } else {
        bind_params(params.drop_last(), vals.drop_last()).insert(params.last(), vals.last())
    }
}

/// The function table a program denotes: each function definition inserted
/// under its name in program order, so the later of two definitions that
/// share a name wins (the documented duplicate policy). Global variable
/// definitions take no part in it.
pub open spec fn table_of(defs: Seq<TopLevel>) -> Map<Seq<char>, FnDef>
    decreases defs.len(),
{
    if defs.len() == 0 {
        Map::empty()
    } else {
        let rest = table_of(defs.drop_last());
        match defs.last() {
            TopLevel::FunctionDefinition { name, params, body } => rest.insert(
                name@,
                FnDef { params: names_of(params@), body: body },
            ),
            TopLevel::GlobalVariableDefinition { name, initializer } => rest,
        }
    }
}

/// Truncating 32-bit division of `a` by a nonzero `b`; the minimum value
/// divided by minus one wraps to the minimum value.
pub open spec fn divide_wrapping(a: Value, b: Value) -> Value
    recommends
        b != 0,
{
    match a.checked_div(b) {
        Some(q) => q,
        None => i32::MIN,
    }
}

/// Apply a binary operator to two fully evaluated operands. Only `Divide`
/// can fail, and only on a zero right-hand operand; relational operators
/// yield `1` for true and `0` for false.
pub open spec fn apply_operator(op: Operator, a: Value, b: Value) -> Result<Value, EvalErrorSpec> {
    match op {
        Operator::Add => Ok(a.wrapping_add(b)),
        Operator::Subtract => Ok(a.wrapping_sub(b)),
        Operator::Multiply => Ok(a.wrapping_mul(b)),
        Operator::Divide => if b == 0 {
            Err(EvalErrorSpec::DivisionByZero)
        } else {
            Ok(divide_wrapping(a, b))
        },
        Operator::LessThan => Ok(if a < b { 1 } else { 0 }),
        Operator::LessOrEqual => Ok(if a <= b { 1 } else { 0 }),
        Operator::GreaterThan => Ok(if a > b { 1 } else { 0 }),
        Operator::GreaterOrEqual => Ok(if a >= b { 1 } else { 0 }),
        Operator::EqualEqual => Ok(if a == b { 1 } else { 0 }),
        Operator::NotEqual => Ok(if a != b { 1 } else { 0 }),
    }
}

/// Big-step evaluation of one expression against an environment and a
/// function table.
pub open spec fn eval_expr(
    e: Expression,
    env: Map<Seq<char>, Value>,
    table: Map<Seq<char>, FnDef>,
    fuel: nat,
) -> Outcome
    decreases fuel, 0int,
{
    if fuel == 0 {
        Outcome::OutOfFuel { env }
    } else {
        let f = (fuel - 1) as nat;
        match e {
            Expression::ValueExpression(v) => Outcome::Value { value: v, env },
            Expression::Identifier(name) => if env.contains_key(name@) {
                Outcome::Value { value: env[name@], env }
            } else {
                Outcome::Error {
                    error: EvalErrorSpec::UndefinedVariable { name: name@ },
                    env,
                }
            },
            Expression::Assignment { name, expr } => match eval_expr(*expr, env, table, f) {
                Outcome::Value { value, env: env1 } => Outcome::Value {
                    value,
                    env: env1.insert(name@, value),
                },
                other => other,
            },
            Expression::BinaryExpression { operator, lhs, rhs } => match eval_expr(
                *lhs,
                env,
                table,
                f,
            ) {
                Outcome::Value { value: a, env: env1 } => match eval_expr(*rhs, env1, table, f) {
                    Outcome::Value { value: b, env: env2 } => match apply_operator(
                        operator,
                        a,
                        b,
                    ) {
                        Ok(v) => Outcome::Value { value: v, env: env2 },
                        Err(error) => Outcome::Error { error, env: env2 },
                    },
                    other => other,
                },
                other => other,
            },
            Expression::BlockExpression { expressions } => match eval_exprs(
                expressions@,
                env,
                table,
                f,
            ) {
                ListOutcome::Values { values, env: env1 } => Outcome::Value {
                    value: if values.len() == 0 {
                        1
                    } else {
                        values.last()
                    },
                    env: env1,
                },
                ListOutcome::Error { error, env: env1 } => Outcome::Error { error, env: env1 },
                ListOutcome::OutOfFuel { env: env1 } => Outcome::OutOfFuel { env: env1 },
            },
            Expression::WhileExpression { condition, body } => eval_while(
                *condition,
                *body,
                env,
                table,
                1,
                f,
            ),
            Expression::IfExpression { condition, then_clause, else_clause } => match eval_expr(
                *condition,
                env,
                table,
                f,
            ) {
                Outcome::Value { value: c, env: env1 } => if c != 0 {
                    eval_expr(*then_clause, env1, table, f)
                } else {
                    match else_clause {
                        Some(eb) => eval_expr(*eb, env1, table, f),
                        None => Outcome::Value { value: 1, env: env1 },
                    }
                },
                other => other,
            },
            Expression::FunctionCall { name, args } => if !table.contains_key(name@) {
                Outcome::Error {
                    error: EvalErrorSpec::UndefinedFunction { name: name@ },
                    env,
                }
            } else {
                match eval_exprs(args@, env, table, f) {
                    ListOutcome::Values { values, env: env1 } => {
                        let def = table[name@];
                        if values.len() != def.params.len() {
                            Outcome::Error {
                                error: EvalErrorSpec::ArityMismatch {
                                    name: name@,
                                    expected: def.params.len(),
                                    actual: values.len(),
                                },
                                env: env1,
                            }
                        } else {
                            match eval_expr(def.body, bind_params(def.params, values), table, f) {
                                Outcome::Value { value, env: callee_env } => Outcome::Value {
                                    value,
                                    env: env1,
                                },
                                Outcome::Error { error, env: callee_env } => Outcome::Error {
                                    error,
                                    env: env1,
                                },
                                Outcome::OutOfFuel { env: callee_env } => Outcome::OutOfFuel {
                                    env: env1,
                                },
                            }
                        }
                    },
                    ListOutcome::Error { error, env: env1 } => Outcome::Error {
                        error,
                        env: env1,
                    },
                    ListOutcome::OutOfFuel { env: env1 } => Outcome::OutOfFuel { env: env1 },
                }
            },
        }
    }
}

/// Evaluate a list of expressions left to right, each against the
/// environment the previous one left behind.
pub open spec fn eval_exprs(
    es: Seq<Expression>,
    env: Map<Seq<char>, Value>,
    table: Map<Seq<char>, FnDef>,
    fuel: nat,
) -> ListOutcome
    decreases fuel, es.len() + 1,
{
    if es.len() == 0 {
        ListOutcome::Values { values: Seq::empty(), env }
    } else {
        match eval_expr(es[0], env, table, fuel) {
            Outcome::Value { value, env: env1 } => prepend_values(
                seq![value],
                eval_exprs(es.drop_first(), env1, table, fuel),
            ),
            Outcome::Error { error, env: env1 } => ListOutcome::Error { error, env: env1 },
            Outcome::OutOfFuel { env: env1 } => ListOutcome::OutOfFuel { env: env1 },
        }
    }
}

/// One round of a while loop: test the condition; when it is nonzero run
/// the body and go round again, carrying the body's value; when it is zero
/// yield the last body value, or the default `1` when the body never ran.
pub open spec fn eval_while(
    condition: Expression,
    body: Expression,
    env: Map<Seq<char>, Value>,
    table: Map<Seq<char>, FnDef>,
    last: Value,
    fuel: nat,
) -> Outcome
    decreases fuel, 1int,
{
    if fuel == 0 {
        Outcome::OutOfFuel { env }
    } else {
        match eval_expr(condition, env, table, fuel) {
            Outcome::Value { value: c, env: env1 } => if c == 0 {
                Outcome::Value { value: last, env: env1 }
            } else {
                match eval_expr(body, env1, table, fuel) {
                    Outcome::Value { value: b, env: env2 } => eval_while(
                        condition,
                        body,
                        env2,
                        table,
                        b,
                        (fuel - 1) as nat,
                    ),
                    other => other,
                }
            },
            other => other,
        }
    }
}

/// Prefixing no values changes nothing.
pub proof fn lemma_prepend_values_empty(o: ListOutcome)
    ensures
        prepend_values(Seq::empty(), o) == o,
{
    match o {
        ListOutcome::Values { values, env } => {
            assert(Seq::<Value>::empty() + values =~= values);
        },
        _ => {},
    }
}

/// Prefixing twice is prefixing the concatenation.
pub proof fn lemma_prepend_values_compose(a: Seq<Value>, b: Seq<Value>, o: ListOutcome)
    ensures
        prepend_values(a, prepend_values(b, o)) == prepend_values(a + b, o),
{
    match o {
        ListOutcome::Values { values, env } => {
            assert(a + (b + values) =~= (a + b) + values);
        },
        _ => {},
    }
}

/// What a whole program yields: build the function table, locate the
/// zero-parameter function named `main`, and evaluate its body against the
/// given starting environment; without such a function the run fails with
/// [`EvalErrorSpec::MissingMain`].
pub open spec fn program_outcome(
    defs: Seq<TopLevel>,
    env: Map<Seq<char>, Value>,
    fuel: nat,
) -> Outcome {
    let table = table_of(defs);
    if table.contains_key("main"@) && table["main"@].params.len() == 0 {
        eval_expr(table["main"@].body, env, table, fuel)
    } else {
        Outcome::Error { error: EvalErrorSpec::MissingMain, env }
    }
}

} // verus!
