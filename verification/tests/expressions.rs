//! Single-expression evaluation through `Interpreter::interpret`, the
//! construction helpers, and the environment and function-table operations.

use minilang::ast::{self, Expression, Operator, Program, TopLevel};
use minilang::environment::Environment;
use minilang::errors::EvalError;
use minilang::interpreter::{
    build_function_table, lookup_function, resolve_main, FunctionTable, Interpreter,
};

const FUEL: u64 = 100_000;

fn fresh() -> Interpreter {
    let environment = Environment { bindings: Vec::new() };
    let function_environment = FunctionTable { entries: Vec::new() };
    Interpreter { environment, function_environment }
}

fn var(name: &str) -> Expression {
    Expression::Identifier(name.to_string())
}

fn assign(name: &str, e: Expression) -> Expression {
    Expression::Assignment { name: name.to_string(), expr: Box::new(e) }
}

fn binary(op: Operator, lhs: Expression, rhs: Expression) -> Expression {
    Expression::BinaryExpression { operator: op, lhs: Box::new(lhs), rhs: Box::new(rhs) }
}

#[test]
fn test_10_plus_20_should_work() {
    let environment = Environment { bindings: Vec::new() };
    let function_environment = FunctionTable { entries: Vec::new() };
    let mut interpreter = Interpreter { environment, function_environment };
    assert_eq!(
        interpreter.interpret(&ast::add(ast::integer(10), ast::integer(20)), FUEL),
        Some(Ok(30))
    );
}

#[test]
fn literal_evaluates_to_itself() {
    assert_eq!(fresh().interpret(&ast::integer(-42), FUEL), Some(Ok(-42)));
}

#[test]
fn subtract_and_multiply_follow_integer_arithmetic() {
    assert_eq!(
        fresh().interpret(&ast::subtract(ast::integer(7), ast::integer(10)), FUEL),
        Some(Ok(-3))
    );
    assert_eq!(
        fresh().interpret(&ast::multiply(ast::integer(6), ast::integer(7)), FUEL),
        Some(Ok(42))
    );
}

#[test]
fn addition_wraps_on_overflow() {
    assert_eq!(
        fresh().interpret(&ast::add(ast::integer(i32::MAX), ast::integer(1)), FUEL),
        Some(Ok(i32::MIN))
    );
}

#[test]
fn division_truncates_toward_zero() {
    assert_eq!(
        fresh().interpret(&ast::divide(ast::integer(7), ast::integer(2)), FUEL),
        Some(Ok(3))
    );
    assert_eq!(
        fresh().interpret(&ast::divide(ast::integer(-7), ast::integer(2)), FUEL),
        Some(Ok(-3))
    );
    assert_eq!(
        fresh().interpret(&ast::divide(ast::integer(7), ast::integer(-2)), FUEL),
        Some(Ok(-3))
    );
}

#[test]
fn division_of_minimum_by_minus_one_wraps() {
    assert_eq!(
        fresh().interpret(&ast::divide(ast::integer(i32::MIN), ast::integer(-1)), FUEL),
        Some(Ok(i32::MIN))
    );
}

#[test]
fn division_by_zero_is_reported() {
    assert_eq!(
        fresh().interpret(&ast::divide(ast::integer(0), ast::integer(0)), FUEL),
        Some(Err(EvalError::DivisionByZero))
    );
}

#[test]
fn relational_operators_yield_one_or_zero() {
    let cases: Vec<(Operator, i32, i32, i32)> = vec![
        (Operator::LessThan, 3, 5, 1),
        (Operator::LessThan, 5, 3, 0),
        (Operator::LessOrEqual, 5, 5, 1),
        (Operator::LessOrEqual, 6, 5, 0),
        (Operator::GreaterThan, 5, 3, 1),
        (Operator::GreaterThan, 3, 5, 0),
        (Operator::GreaterOrEqual, 5, 5, 1),
        (Operator::GreaterOrEqual, 4, 5, 0),
        (Operator::EqualEqual, 5, 5, 1),
        (Operator::EqualEqual, 5, 4, 0),
        (Operator::NotEqual, 5, 4, 1),
        (Operator::NotEqual, 5, 5, 0),
    ];
    for (op, a, b, expected) in cases {
        assert_eq!(
            fresh().interpret(&binary(op, ast::integer(a), ast::integer(b)), FUEL),
            Some(Ok(expected))
        );
    }
}

#[test]
fn binary_operands_evaluate_left_to_right() {
    // (x = 1) + (x = 2): the sum sees both assignments, and x ends at 2
    let mut interpreter = fresh();
    let e = ast::add(assign("x", ast::integer(1)), assign("x", ast::integer(2)));
    assert_eq!(interpreter.interpret(&e, FUEL), Some(Ok(3)));
    assert_eq!(interpreter.environment.lookup(&"x".to_string()), Ok(2));
}

#[test]
fn empty_block_yields_default_one() {
    assert_eq!(fresh().interpret(&ast::block(vec![]), FUEL), Some(Ok(1)));
}

#[test]
fn block_yields_last_value() {
    let e = ast::block(vec![ast::integer(4), ast::integer(5), ast::integer(6)]);
    assert_eq!(fresh().interpret(&e, FUEL), Some(Ok(6)));
}

#[test]
fn if_without_else_on_false_condition_yields_default_one() {
    let e = ast::if_exp(ast::integer(0), ast::integer(9));
    assert_eq!(fresh().interpret(&e, FUEL), Some(Ok(1)));
}

#[test]
fn if_takes_then_branch_on_nonzero_condition() {
    let e = ast::if_else_exp(ast::integer(-1), ast::integer(9), Some(ast::integer(8)));
    assert_eq!(fresh().interpret(&e, FUEL), Some(Ok(9)));
}

#[test]
fn while_with_false_condition_yields_default_one() {
    let e = ast::while_exp(ast::integer(0), ast::integer(9));
    assert_eq!(fresh().interpret(&e, FUEL), Some(Ok(1)));
}

#[test]
fn assignment_yields_the_stored_value() {
    let mut interpreter = fresh();
    assert_eq!(interpreter.interpret(&assign("v", ast::integer(11)), FUEL), Some(Ok(11)));
    assert_eq!(interpreter.environment.lookup(&"v".to_string()), Ok(11));
}

#[test]
fn environment_overwrites_and_reports_missing_names() {
    let mut env = Environment::new();
    let x = "x".to_string();
    assert_eq!(
        env.lookup(&x),
        Err(EvalError::UndefinedVariable { name: "x".to_string() })
    );
    env.define_or_assign(&x, 1);
    assert_eq!(env.lookup(&x), Ok(1));
    env.define_or_assign(&x, 2);
    assert_eq!(env.lookup(&x), Ok(2));
}

#[test]
fn function_table_keeps_later_definition_and_skips_globals() {
    let program = Program {
        definitions: vec![
            TopLevel::GlobalVariableDefinition {
                name: "g".to_string(),
                initializer: ast::integer(0),
            },
            TopLevel::FunctionDefinition {
                name: "f".to_string(),
                params: vec!["a".to_string()],
                body: ast::integer(1),
            },
            TopLevel::FunctionDefinition {
                name: "f".to_string(),
                params: vec![],
                body: ast::integer(2),
            },
        ],
    };
    let table = build_function_table(program);
    assert_eq!(table.entries.len(), 2);
    let f = lookup_function(&table, &"f".to_string()).expect("f is defined");
    assert_eq!(f.1.len(), 0);
    assert!(lookup_function(&table, &"g".to_string()).is_none());
    assert!(lookup_function(&table, &"main".to_string()).is_none());
    assert!(matches!(resolve_main(&table), Err(EvalError::MissingMain)));
}

#[test]
fn resolve_main_finds_zero_parameter_main() {
    let program = Program {
        definitions: vec![TopLevel::FunctionDefinition {
            name: "main".to_string(),
            params: vec![],
            body: ast::integer(3),
        }],
    };
    let table = build_function_table(program);
    let main_def = resolve_main(&table).expect("main is defined");
    assert_eq!(main_def.0, "main");
    assert!(main_def.1.is_empty());
}

#[test]
fn builders_construct_the_matching_nodes() {
    assert!(matches!(
        ast::add(ast::integer(1), ast::integer(2)),
        Expression::BinaryExpression { operator: Operator::Add, .. }
    ));
    assert!(matches!(
        ast::subtract(ast::integer(1), ast::integer(2)),
        Expression::BinaryExpression { operator: Operator::Subtract, .. }
    ));
    assert!(matches!(
        ast::multiply(ast::integer(1), ast::integer(2)),
        Expression::BinaryExpression { operator: Operator::Multiply, .. }
    ));
    assert!(matches!(
        ast::divide(ast::integer(1), ast::integer(2)),
        Expression::BinaryExpression { operator: Operator::Divide, .. }
    ));
    assert!(matches!(ast::integer(7), Expression::ValueExpression(7)));
    assert!(matches!(
        ast::block(vec![ast::integer(1)]),
        Expression::BlockExpression { .. }
    ));
    assert!(matches!(
        ast::while_exp(ast::integer(1), ast::integer(2)),
        Expression::WhileExpression { .. }
    ));
    assert!(matches!(
        ast::if_exp(ast::integer(1), ast::integer(2)),
        Expression::IfExpression { else_clause: None, .. }
    ));
    assert!(matches!(
        ast::if_else_exp(ast::integer(1), ast::integer(2), Some(ast::integer(3))),
        Expression::IfExpression { else_clause: Some(_), .. }
    ));
    assert!(matches!(
        ast::if_else_exp(ast::integer(1), ast::integer(2), None),
        Expression::IfExpression { else_clause: None, .. }
    ));
    assert!(matches!(
        Expression::add(ast::integer(1), ast::integer(2)),
        Expression::BinaryExpression { operator: Operator::Add, .. }
    ));
    assert!(matches!(Expression::integer(9), Expression::ValueExpression(9)));
}

#[test]
fn interpret_runs_out_of_fuel_on_deep_nesting() {
    let mut e = ast::integer(1);
    for _ in 0..10 {
        e = ast::add(e, ast::integer(1));
    }
    // ten nested additions need more than three units of fuel
    assert_eq!(fresh().interpret(&e, 3), None);
    assert_eq!(fresh().interpret(&e, FUEL), Some(Ok(11)));
}
