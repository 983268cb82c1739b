//! Whole-program scenarios through `run` and `Interpreter::call_main`.

use minilang::ast::{self, Expression, Operator, Program, TopLevel};
use minilang::environment::Environment;
use minilang::errors::EvalError;
use minilang::interpreter::{run, FunctionTable, Interpreter};

const FUEL: u64 = 100_000;

fn var(name: &str) -> Expression {
    Expression::Identifier(name.to_string())
}

fn assign(name: &str, e: Expression) -> Expression {
    Expression::Assignment { name: name.to_string(), expr: Box::new(e) }
}

fn call(name: &str, args: Vec<Expression>) -> Expression {
    Expression::FunctionCall { name: name.to_string(), args }
}

fn fun(name: &str, params: &[&str], body: Expression) -> TopLevel {
    TopLevel::FunctionDefinition {
        name: name.to_string(),
        params: params.iter().map(|p| p.to_string()).collect(),
        body,
    }
}

fn main_fun(body: Expression) -> TopLevel {
    fun("main", &[], body)
}

fn binary(op: Operator, lhs: Expression, rhs: Expression) -> Expression {
    Expression::BinaryExpression { operator: op, lhs: Box::new(lhs), rhs: Box::new(rhs) }
}

#[test]
fn run_addition_yields_30() {
    let program = Program {
        definitions: vec![main_fun(ast::add(ast::integer(10), ast::integer(20)))],
    };
    assert_eq!(run(program, FUEL), Some(Ok(30)));
}

#[test]
fn run_assign_then_increment_yields_6() {
    let body = ast::block(vec![
        assign("x", ast::integer(5)),
        assign("x", ast::add(var("x"), ast::integer(1))),
        var("x"),
    ]);
    let program = Program { definitions: vec![main_fun(body)] };
    assert_eq!(run(program, FUEL), Some(Ok(6)));
}

#[test]
fn run_if_with_false_condition_takes_else() {
    let body = ast::if_else_exp(ast::integer(0), ast::integer(1), Some(ast::integer(2)));
    let program = Program { definitions: vec![main_fun(body)] };
    assert_eq!(run(program, FUEL), Some(Ok(2)));
}

#[test]
fn run_while_counts_to_3() {
    let body = ast::block(vec![
        assign("i", ast::integer(0)),
        ast::while_exp(
            binary(Operator::LessThan, var("i"), ast::integer(3)),
            assign("i", ast::add(var("i"), ast::integer(1))),
        ),
        var("i"),
    ]);
    let program = Program { definitions: vec![main_fun(body)] };
    assert_eq!(run(program, FUEL), Some(Ok(3)));
}

#[test]
fn run_two_argument_call_yields_5() {
    let program = Program {
        definitions: vec![
            fun("add", &["a", "b"], ast::add(var("a"), var("b"))),
            main_fun(call("add", vec![ast::integer(2), ast::integer(3)])),
        ],
    };
    assert_eq!(run(program, FUEL), Some(Ok(5)));
}

#[test]
fn run_call_with_missing_argument_is_arity_mismatch() {
    let program = Program {
        definitions: vec![
            fun("add", &["a", "b"], ast::add(var("a"), var("b"))),
            main_fun(call("add", vec![ast::integer(1)])),
        ],
    };
    assert_eq!(
        run(program, FUEL),
        Some(Err(EvalError::ArityMismatch { name: "add".to_string(), expected: 2, actual: 1 }))
    );
}

#[test]
fn run_call_with_extra_argument_is_arity_mismatch() {
    let program = Program {
        definitions: vec![
            fun("id", &["a"], var("a")),
            main_fun(call("id", vec![ast::integer(1), ast::integer(2)])),
        ],
    };
    assert_eq!(
        run(program, FUEL),
        Some(Err(EvalError::ArityMismatch { name: "id".to_string(), expected: 1, actual: 2 }))
    );
}

#[test]
fn run_division_by_zero_fails() {
    let program = Program {
        definitions: vec![main_fun(ast::divide(ast::integer(1), ast::integer(0)))],
    };
    assert_eq!(run(program, FUEL), Some(Err(EvalError::DivisionByZero)));
}

#[test]
fn run_empty_program_is_missing_main() {
    let program = Program { definitions: vec![] };
    assert_eq!(run(program, FUEL), Some(Err(EvalError::MissingMain)));
}

#[test]
fn run_main_with_parameters_is_missing_main() {
    let program = Program { definitions: vec![fun("main", &["a"], var("a"))] };
    assert_eq!(run(program, FUEL), Some(Err(EvalError::MissingMain)));
}

#[test]
fn run_unknown_function_fails() {
    let program = Program { definitions: vec![main_fun(call("nope", vec![]))] };
    assert_eq!(
        run(program, FUEL),
        Some(Err(EvalError::UndefinedFunction { name: "nope".to_string() }))
    );
}

#[test]
fn run_unbound_variable_fails() {
    let program = Program { definitions: vec![main_fun(var("z"))] };
    assert_eq!(
        run(program, FUEL),
        Some(Err(EvalError::UndefinedVariable { name: "z".to_string() }))
    );
}

#[test]
fn run_later_duplicate_definition_wins() {
    let program = Program {
        definitions: vec![main_fun(ast::integer(1)), main_fun(ast::integer(2))],
    };
    assert_eq!(run(program, FUEL), Some(Ok(2)));
}

#[test]
fn run_global_definitions_are_passed_over() {
    let program = Program {
        definitions: vec![
            TopLevel::GlobalVariableDefinition {
                name: "g".to_string(),
                initializer: ast::integer(9),
            },
            main_fun(ast::integer(7)),
        ],
    };
    assert_eq!(run(program, FUEL), Some(Ok(7)));
}

#[test]
fn run_callee_cannot_mutate_caller_binding() {
    // main sets g, calls f (which assigns its own g), then reads g again:
    // the callee's assignment stays in the callee's environment.
    let program = Program {
        definitions: vec![
            fun("f", &[], assign("g", ast::integer(2))),
            main_fun(ast::block(vec![
                assign("g", ast::integer(1)),
                call("f", vec![]),
                var("g"),
            ])),
        ],
    };
    assert_eq!(run(program, FUEL), Some(Ok(1)));
}

#[test]
fn run_callee_cannot_read_caller_binding() {
    let program = Program {
        definitions: vec![
            fun("h", &[], var("y")),
            main_fun(ast::block(vec![assign("y", ast::integer(5)), call("h", vec![])])),
        ],
    };
    assert_eq!(
        run(program, FUEL),
        Some(Err(EvalError::UndefinedVariable { name: "y".to_string() }))
    );
}

#[test]
fn run_parameter_passes_value_into_callee() {
    let program = Program {
        definitions: vec![
            fun("twice", &["n"], ast::multiply(var("n"), ast::integer(2))),
            main_fun(ast::block(vec![
                assign("n", ast::integer(21)),
                call("twice", vec![var("n")]),
            ])),
        ],
    };
    assert_eq!(run(program, FUEL), Some(Ok(42)));
}

#[test]
fn run_argument_effects_happen_left_to_right() {
    // both arguments assign x; the right one runs second, so x ends at 2
    let program = Program {
        definitions: vec![
            fun("g", &["a", "b"], ast::integer(0)),
            main_fun(ast::block(vec![
                call("g", vec![assign("x", ast::integer(1)), assign("x", ast::integer(2))]),
                var("x"),
            ])),
        ],
    };
    assert_eq!(run(program, FUEL), Some(Ok(2)));
}

#[test]
fn run_recursive_factorial() {
    let fact_body = ast::if_else_exp(
        binary(Operator::LessThan, var("n"), ast::integer(1)),
        ast::integer(1),
        Some(ast::multiply(
            var("n"),
            call("fact", vec![ast::subtract(var("n"), ast::integer(1))]),
        )),
    );
    let program = Program {
        definitions: vec![
            fun("fact", &["n"], fact_body),
            main_fun(call("fact", vec![ast::integer(5)])),
        ],
    };
    assert_eq!(run(program, FUEL), Some(Ok(120)));
}

#[test]
fn run_endless_loop_exhausts_fuel() {
    let program = Program {
        definitions: vec![main_fun(ast::while_exp(ast::integer(1), ast::integer(0)))],
    };
    assert_eq!(run(program, 1_000), None);
}

#[test]
fn run_is_deterministic() {
    let build = || Program {
        definitions: vec![main_fun(ast::block(vec![
            assign("x", ast::integer(5)),
            assign("x", ast::add(var("x"), var("x"))),
            ast::divide(var("x"), ast::integer(3)),
        ]))],
    };
    assert_eq!(run(build(), FUEL), run(build(), FUEL));
    assert_eq!(run(build(), FUEL), Some(Ok(3)));
}

#[test]
fn call_main_populates_table_and_uses_own_environment() {
    let mut interpreter = Interpreter::new();
    let program = Program {
        definitions: vec![main_fun(ast::block(vec![
            assign("x", ast::integer(4)),
            ast::multiply(var("x"), var("x")),
        ]))],
    };
    assert_eq!(interpreter.call_main(program, FUEL), Some(Ok(16)));
    // the binding main made is still visible in the interpreter's state
    assert_eq!(interpreter.environment.lookup(&"x".to_string()), Ok(4));
}

#[test]
fn call_main_without_main_reports_missing_main() {
    let environment = Environment { bindings: Vec::new() };
    let function_environment = FunctionTable { entries: Vec::new() };
    let mut interpreter = Interpreter { environment, function_environment };
    let program = Program { definitions: vec![fun("f", &[], ast::integer(1))] };
    assert_eq!(interpreter.call_main(program, FUEL), Some(Err(EvalError::MissingMain)));
}
