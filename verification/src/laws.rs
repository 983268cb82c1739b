//! The semantic guarantees of the language, each stated and proved against
//! the model in [`crate::semantics`]. The executable evaluator's contracts
//! tie it to that model, so these laws carry over to every run.

use vstd::prelude::*;

use vstd::arithmetic::div_mod::{
    lemma_div_is_ordered_by_denominator, lemma_div_nonincreasing, lemma_div_pos_is_pos,
};

use crate::ast::{Expression, Operator, TopLevel, Value};
use crate::errors::{EvalError, EvalErrorSpec};
use crate::semantics::{
    apply_operator, bind_params, divide_wrapping, env_of, eval_expr, eval_exprs, outcome_view,
    prepend_values, program_outcome, result_of, FnDef, ListOutcome, Outcome,
};

verus! {

/// Law: evaluation is deterministic. Any two results the evaluator's
/// contract admits for the same expression, starting environment, function
/// table and fuel are the same result — the same value or the same error
/// kind — and leave the same environment behind.
pub proof fn lemma_evaluation_deterministic(
    e: Expression,
    env: Map<Seq<char>, Value>,
    table: Map<Seq<char>, FnDef>,
    fuel: nat,
    r1: Option<Result<Value, EvalError>>,
    m1: Map<Seq<char>, Value>,
    r2: Option<Result<Value, EvalError>>,
    m2: Map<Seq<char>, Value>,
)
    requires
        outcome_view(r1) == result_of(eval_expr(e, env, table, fuel)),
        m1 == env_of(eval_expr(e, env, table, fuel)),
        outcome_view(r2) == result_of(eval_expr(e, env, table, fuel)),
        m2 == env_of(eval_expr(e, env, table, fuel)),
    ensures
        outcome_view(r1) == outcome_view(r2),
        m1 == m2,
{
}

/// Law: whole-program runs are deterministic. Any two results the runner's
/// contract admits for the same program, starting environment and fuel are
/// the same value or the same error kind.
pub proof fn lemma_run_deterministic(
    defs: Seq<TopLevel>,
    env: Map<Seq<char>, Value>,
    fuel: nat,
    r1: Option<Result<Value, EvalError>>,
    r2: Option<Result<Value, EvalError>>,
)
    requires
        outcome_view(r1) == result_of(program_outcome(defs, env, fuel)),
        outcome_view(r2) == result_of(program_outcome(defs, env, fuel)),
    ensures
        outcome_view(r1) == outcome_view(r2),
{
}

/// Law: a binary expression evaluates strictly left to right. The left
/// operand runs against the incoming environment; the right operand runs
/// against whatever environment the left one left behind; the operator is
/// applied to the two values in the environment the right one left behind;
/// and a failure of either operand is the failure of the whole expression.
/// (At zero fuel no operand is reached, so the law speaks of positive
/// fuel.)
pub proof fn lemma_binary_left_to_right(
    e: Expression,
    env: Map<Seq<char>, Value>,
    table: Map<Seq<char>, FnDef>,
    fuel: nat,
)
    requires
        fuel > 0,
    ensures
        (e matches Expression::BinaryExpression { operator, lhs, rhs } ==> {
            let first = eval_expr(*lhs, env, table, (fuel - 1) as nat);
            &&& (first matches Outcome::Value { value: a, env: env1 } ==> {
                let second = eval_expr(*rhs, env1, table, (fuel - 1) as nat);
                &&& (second matches Outcome::Value { value: b, env: env2 } ==> eval_expr(
                    e,
                    env,
                    table,
                    fuel,
                ) == (match apply_operator(operator, a, b) {
                    Ok(v) => Outcome::Value { value: v, env: env2 },
                    Err(error) => Outcome::Error { error, env: env2 },
                }))
                &&& (second matches Outcome::Error { error, env: env2 } ==> eval_expr(
                    e,
                    env,
                    table,
                    fuel,
                ) == (Outcome::Error { error, env: env2 }))
            })
            &&& (first matches Outcome::Error { error, env: env1 } ==> eval_expr(
                e,
                env,
                table,
                fuel,
            ) == (Outcome::Error { error, env: env1 }))
        }),
{
}

/// Law: an argument list evaluates strictly left to right: the first
/// argument runs against the incoming environment, the remaining ones
/// against the environment it left behind, and a failure of the first is
/// the failure of the whole list.
pub proof fn lemma_arguments_left_to_right(
    es: Seq<Expression>,
    env: Map<Seq<char>, Value>,
    table: Map<Seq<char>, FnDef>,
    fuel: nat,
)
    requires
        es.len() > 0,
    ensures
        (eval_expr(es[0], env, table, fuel) matches Outcome::Value { value, env: env1 }
            ==> eval_exprs(es, env, table, fuel) == prepend_values(
            seq![value],
            eval_exprs(es.drop_first(), env1, table, fuel),
        )),
        (eval_expr(es[0], env, table, fuel) matches Outcome::Error { error, env: env1 }
            ==> eval_exprs(es, env, table, fuel) == (ListOutcome::Error { error, env: env1 })),
{
}

/// A list of expressions that evaluates fully yields exactly one value per
/// expression — arguments are never truncated or padded.
pub proof fn lemma_list_values_count(
    es: Seq<Expression>,
    env: Map<Seq<char>, Value>,
    table: Map<Seq<char>, FnDef>,
    fuel: nat,
)
    ensures
        (eval_exprs(es, env, table, fuel) matches ListOutcome::Values { values, env: m }
            ==> values.len() == es.len()),
    decreases es.len(),
{
    if es.len() > 0 {
        match eval_expr(es[0], env, table, fuel) {
            Outcome::Value { value, env: env1 } => {
                lemma_list_values_count(es.drop_first(), env1, table, fuel);
            },
            _ => {},
        }
    }
}

/// Law: a function call cannot read or mutate the caller's environment
/// beyond what its arguments did. Once the arguments have evaluated, the
/// caller's environment after the whole call is exactly the one the
/// arguments left — whatever the callee's body does — and the call's value
/// or error is that of the body run against the fresh parameter bindings
/// alone.
pub proof fn lemma_call_isolates_caller(
    e: Expression,
    env: Map<Seq<char>, Value>,
    table: Map<Seq<char>, FnDef>,
    fuel: nat,
)
    requires
        fuel > 0,
    ensures
        (e matches Expression::FunctionCall { name, args } ==> (table.contains_key(name@)
            ==> (eval_exprs(args@, env, table, (fuel - 1) as nat) matches ListOutcome::Values {
            values,
            env: env_args,
        } ==> (values.len() == table[name@].params.len() ==> {
            let callee = eval_expr(
                table[name@].body,
                bind_params(table[name@].params, values),
                table,
                (fuel - 1) as nat,
            );
            &&& env_of(eval_expr(e, env, table, fuel)) == env_args
            &&& result_of(eval_expr(e, env, table, fuel)) == result_of(callee)
        })))),
{
}

/// Law: the fresh environment a call builds binds the parameter names and
/// nothing else — a caller's variable is visible to the callee only if it
/// was passed as a parameter.
pub proof fn lemma_callee_sees_only_parameters(
    params: Seq<Seq<char>>,
    vals: Seq<Value>,
    x: Seq<char>,
)
    requires
        params.len() == vals.len(),
    ensures
        bind_params(params, vals).contains_key(x) <==> params.contains(x),
    decreases params.len(),
{
    if params.len() > 0 {
        lemma_callee_sees_only_parameters(params.drop_last(), vals.drop_last(), x);
        if params.contains(x) {
            let i = choose|i: int| 0 <= i < params.len() && params[i] == x;
            if i < params.len() - 1 {
                assert(params.drop_last()[i] == x);
            }
        }
        if params.drop_last().contains(x) {
            let i = choose|i: int|
                0 <= i < params.drop_last().len() && params.drop_last()[i] == x;
            assert(params[i] == x);
        }
    }
}

/// Law: calling a defined function with the wrong number of fully
/// evaluated arguments always fails with an arity mismatch naming the
/// function and both counts — the call is never carried out on a truncated
/// or padded argument list.
pub proof fn lemma_arity_enforced(
    e: Expression,
    env: Map<Seq<char>, Value>,
    table: Map<Seq<char>, FnDef>,
    fuel: nat,
)
    requires
        fuel > 0,
    ensures
        (e matches Expression::FunctionCall { name, args } ==> (table.contains_key(name@)
            ==> (eval_exprs(args@, env, table, (fuel - 1) as nat) matches ListOutcome::Values {
            values,
            env: env1,
        } ==> (values.len() != table[name@].params.len() ==> eval_expr(e, env, table, fuel)
            == (Outcome::Error {
            error: EvalErrorSpec::ArityMismatch {
                name: name@,
                expected: table[name@].params.len(),
                actual: values.len(),
            },
            env: env1,
        }))))),
{
}

/// Law: dividing any integer by zero fails with a division-by-zero error,
/// and a nonzero divisor always yields a value — truncating division, with
/// the single overflowing quotient wrapping (see
/// [`lemma_divide_truncates`]).
pub proof fn lemma_division_semantics(
    e: Expression,
    env: Map<Seq<char>, Value>,
    table: Map<Seq<char>, FnDef>,
    fuel: nat,
)
    requires
        fuel > 0,
    ensures
        (e matches Expression::BinaryExpression { operator: Operator::Divide, lhs, rhs }
            ==> (eval_expr(*lhs, env, table, (fuel - 1) as nat) matches Outcome::Value {
            value: a,
            env: env1,
        } ==> (eval_expr(*rhs, env1, table, (fuel - 1) as nat) matches Outcome::Value {
            value: b,
            env: env2,
        } ==> eval_expr(e, env, table, fuel) == (if b == 0 {
            Outcome::Error { error: EvalErrorSpec::DivisionByZero, env: env2 }
        } else {
            Outcome::Value { value: divide_wrapping(a, b), env: env2 }
        })))),
{
}

/// Law: division by a nonzero divisor truncates toward zero — the quotient
/// of the magnitudes, negated when the signs differ — except for the one
/// quotient that does not fit in 32 bits, which wraps to the minimum
/// value.
pub proof fn lemma_divide_truncates(a: Value, b: Value)
    requires
        b != 0,
    ensures
        a == i32::MIN && b == -1 ==> divide_wrapping(a, b) == i32::MIN,
        a == 0 ==> divide_wrapping(a, b) == 0,
        a > 0 && b > 0 ==> divide_wrapping(a, b) == a as int / b as int,
        a < 0 && b < 0 && !(a == i32::MIN && b == -1) ==> divide_wrapping(a, b) == (a as int
            * -1) / (b as int * -1),
        a < 0 && b > 0 ==> divide_wrapping(a, b) == ((a as int * -1) / b as int) * -1,
        a > 0 && b < 0 ==> divide_wrapping(a, b) == (a as int / (b as int * -1)) * -1,
{
    let x = a as int;
    let d = b as int;
    if a == i32::MIN && b == -1 {
        vstd::arithmetic::div_mod::lemma_div_basics(x * -1);
    }
    if a > 0 && b > 0 {
        lemma_div_pos_is_pos(x, d);
        lemma_div_nonincreasing(x, d);
    }
    if a < 0 && b < 0 && !(a == i32::MIN && b == -1) {
        lemma_div_pos_is_pos(x * -1, d * -1);
        lemma_div_nonincreasing(x * -1, d * -1);
        if a == i32::MIN {
            // the divisor is at most -2, so the quotient fits
            lemma_div_is_ordered_by_denominator(x * -1, 2, d * -1);
        }
    }
    if a < 0 && b > 0 {
        lemma_div_pos_is_pos(x * -1, d);
        lemma_div_nonincreasing(x * -1, d);
    }
    if a > 0 && b < 0 {
        lemma_div_pos_is_pos(x, d * -1);
        lemma_div_nonincreasing(x, d * -1);
    }
}

} // verus!
