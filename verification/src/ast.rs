//! The abstract syntax tree: a passive, immutable data model produced by a
//! parser (outside this crate) and consumed by the evaluator. Construction
//! helpers build trees programmatically; no validation happens here — arity,
//! name resolution and the existence of `main` are the evaluator's concern.

use vstd::prelude::*;

verus! {

/// The sole runtime datum of the language: a 32-bit signed integer.
/// Relational operators reuse it as a boolean, `1` for true and `0` for
/// false.
pub type Value = i32;

/// The closed set of binary operators.
#[derive(Clone, Copy, Debug, PartialEq, Eq, Structural)]
pub enum Operator {
    Add,
    Subtract,
    Multiply,
    Divide,
    LessThan,
    LessOrEqual,
    GreaterThan,
    GreaterOrEqual,
    EqualEqual,
    NotEqual,
}

/// An expression node. Each node exclusively owns its children; the tree is
/// never mutated after construction.
#[derive(Debug)]
pub enum Expression {
    /// `lhs operator rhs`; both operands are evaluated left to right.
    BinaryExpression { operator: Operator, lhs: Box<Expression>, rhs: Box<Expression> },
    /// Store the value of `expr` under `name` in the current environment.
    Assignment { name: String, expr: Box<Expression> },
    /// Read a variable from the current environment.
    Identifier(String),
    /// A literal integer.
    ValueExpression(Value),
    /// An ordered sequence of expressions; the block's value is the last
    /// one's, or the default `1` for an empty block.
    BlockExpression { expressions: Vec<Expression> },
    /// Repeat `body` while `condition` is nonzero.
    WhileExpression { condition: Box<Expression>, body: Box<Expression> },
    /// Conditional with an optional else clause.
    IfExpression {
        condition: Box<Expression>,
        then_clause: Box<Expression>,
        else_clause: Option<Box<Expression>>,
    },
    /// Call a user-defined function; arguments are evaluated left to right
    /// in the caller's environment.
    FunctionCall { name: String, args: Vec<Expression> },
}

/// A top-level declaration of a program.
#[derive(Debug)]
pub enum TopLevel {
    /// A named global with an initializer expression. Carried in the data
    /// model for parsers that produce it; the evaluator's entry point only
    /// reads function definitions.
    GlobalVariableDefinition { name: String, initializer: Expression },
    /// A named function with call-by-value parameters.
    FunctionDefinition { name: String, params: Vec<String>, body: Expression },
}

/// An ordered sequence of top-level declarations, built by a parser and only
/// ever read by the evaluator.
#[derive(Debug)]
pub struct Program {
    pub definitions: Vec<TopLevel>,
}

impl Expression {
    /// Build `lhs + rhs`.
    pub fn add(lhs: Expression, rhs: Expression) -> (r: Expression)
        ensures
            ({
                &&& r matches Expression::BinaryExpression { operator, lhs: l, rhs: rr }
                &&& operator == Operator::Add
                &&& *l == lhs
                &&& *rr == rhs
            }),
    {
        Expression::BinaryExpression { operator: Operator::Add, lhs: Box::new(lhs), rhs: Box::new(rhs) }
    }

    /// Build `lhs - rhs`.
    pub fn subtract(lhs: Expression, rhs: Expression) -> (r: Expression)
        ensures
            ({
                &&& r matches Expression::BinaryExpression { operator, lhs: l, rhs: rr }
                &&& operator == Operator::Subtract
                &&& *l == lhs
                &&& *rr == rhs
            }),
    {
        Expression::BinaryExpression {
            operator: Operator::Subtract,
            lhs: Box::new(lhs),
            rhs: Box::new(rhs),
        }
    }

    /// Build `lhs * rhs`.
    pub fn multiply(lhs: Expression, rhs: Expression) -> (r: Expression)
        ensures
            ({
                &&& r matches Expression::BinaryExpression { operator, lhs: l, rhs: rr }
                &&& operator == Operator::Multiply
                &&& *l == lhs
                &&& *rr == rhs
            }),
    {
        Expression::BinaryExpression {
            operator: Operator::Multiply,
            lhs: Box::new(lhs),
            rhs: Box::new(rhs),
        }
    }

    /// Build `lhs / rhs`.
    pub fn divide(lhs: Expression, rhs: Expression) -> (r: Expression)
        ensures
            ({
                &&& r matches Expression::BinaryExpression { operator, lhs: l, rhs: rr }
                &&& operator == Operator::Divide
                &&& *l == lhs
                &&& *rr == rhs
            }),
    {
        Expression::BinaryExpression {
            operator: Operator::Divide,
            lhs: Box::new(lhs),
            rhs: Box::new(rhs),
        }
    }

    /// Build a literal integer.
    pub fn integer(value: Value) -> (r: Expression)
        ensures
            r == Expression::ValueExpression(value),
    {
        Expression::ValueExpression(value)
    }

    /// Build a block of expressions.
    pub fn block(expressions: Vec<Expression>) -> (r: Expression)
        ensures
            ({
                &&& r matches Expression::BlockExpression { expressions: es }
                &&& es == expressions
            }),
    {
        Expression::BlockExpression { expressions }
    }

    /// Build a while loop.
    pub fn while_exp(condition: Expression, body: Expression) -> (r: Expression)
        ensures
            ({
                &&& r matches Expression::WhileExpression { condition: c, body: b }
                &&& *c == condition
                &&& *b == body
            }),
    {
        Expression::WhileExpression { condition: Box::new(condition), body: Box::new(body) }
    }

    /// Build a conditional without an else clause.
    pub fn if_exp(condition: Expression, then_clause: Expression) -> (r: Expression)
        ensures
            ({
                &&& r matches Expression::IfExpression { condition: c, then_clause: t, else_clause }
                &&& *c == condition
                &&& *t == then_clause
                &&& else_clause is None
            }),
    {
        Expression::IfExpression {
            condition: Box::new(condition),
            then_clause: Box::new(then_clause),
            else_clause: None,
        }
    }

    /// Build a conditional with an optional else clause.
    pub fn if_else_exp(
        condition: Expression,
        then_clause: Expression,
        else_clause: Option<Expression>,
    ) -> (r: Expression)
        ensures
            ({
                &&& r matches Expression::IfExpression { condition: c, then_clause: t, else_clause: e }
                &&& *c == condition
                &&& *t == then_clause
                &&& match else_clause {
                    Some(ec) => e matches Some(eb) && *eb == ec,
                    None => e is None,
                }
            }),
    {
        let boxed: Option<Box<Expression>> = match else_clause {
            Some(ec) => Some(Box::new(ec)),
            None => None,
        };
        Expression::IfExpression {
            condition: Box::new(condition),
            then_clause: Box::new(then_clause),
            else_clause: boxed,
        }
    }
}

/// Build `lhs + rhs`.
pub fn add(lhs: Expression, rhs: Expression) -> (r: Expression)
    ensures
        ({
            &&& r matches Expression::BinaryExpression { operator, lhs: l, rhs: rr }
            &&& operator == Operator::Add
            &&& *l == lhs
            &&& *rr == rhs
        }),
{
    Expression::add(lhs, rhs)
}

/// Build `lhs - rhs`.
pub fn subtract(lhs: Expression, rhs: Expression) -> (r: Expression)
    ensures
        ({
            &&& r matches Expression::BinaryExpression { operator, lhs: l, rhs: rr }
            &&& operator == Operator::Subtract
            &&& *l == lhs
            &&& *rr == rhs
        }),
{
    Expression::subtract(lhs, rhs)
}

/// Build `lhs * rhs`.
pub fn multiply(lhs: Expression, rhs: Expression) -> (r: Expression)
    ensures
        ({
            &&& r matches Expression::BinaryExpression { operator, lhs: l, rhs: rr }
            &&& operator == Operator::Multiply
            &&& *l == lhs
            &&& *rr == rhs
        }),
{
    Expression::multiply(lhs, rhs)
}

/// Build `lhs / rhs`.
pub fn divide(lhs: Expression, rhs: Expression) -> (r: Expression)
    ensures
        ({
            &&& r matches Expression::BinaryExpression { operator, lhs: l, rhs: rr }
            &&& operator == Operator::Divide
            &&& *l == lhs
            &&& *rr == rhs
        }),
{
    Expression::divide(lhs, rhs)
}

/// Build a literal integer.
pub fn integer(value: Value) -> (r: Expression)
    ensures
        r == Expression::ValueExpression(value),
{
    Expression::integer(value)
}

/// Build a block of expressions.
pub fn block(expressions: Vec<Expression>) -> (r: Expression)
    ensures
        ({
            &&& r matches Expression::BlockExpression { expressions: es }
            &&& es == expressions
        }),
{
    Expression::block(expressions)
}

/// Build a while loop.
pub fn while_exp(condition: Expression, body: Expression) -> (r: Expression)
    ensures
        ({
            &&& r matches Expression::WhileExpression { condition: c, body: b }
            &&& *c == condition
            &&& *b == body
        }),
{
    Expression::while_exp(condition, body)
}

/// Build a conditional without an else clause.
pub fn if_exp(condition: Expression, then_clause: Expression) -> (r: Expression)
    ensures
        ({
            &&& r matches Expression::IfExpression { condition: c, then_clause: t, else_clause }
            &&& *c == condition
            &&& *t == then_clause
            &&& else_clause is None
        }),
{
    Expression::if_exp(condition, then_clause)
}

/// Build a conditional with an optional else clause.
pub fn if_else_exp(
    condition: Expression,
    then_clause: Expression,
    else_clause: Option<Expression>,
) -> (r: Expression)
    ensures
        ({
            &&& r matches Expression::IfExpression { condition: c, then_clause: t, else_clause: e }
            &&& *c == condition
            &&& *t == then_clause
            &&& match else_clause {
                Some(ec) => e matches Some(eb) && *eb == ec,
                None => e is None,
            }
        }),
{
    Expression::if_else_exp(condition, then_clause, else_clause)
}

} // verus!
