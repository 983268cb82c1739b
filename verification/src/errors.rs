//! The error taxonomy of the evaluator. Every error aborts the current run
//! immediately and is surfaced to the caller; there is no internal recovery.
//!
//! Duplicate function definitions are not an error: the table keeps the
//! later definition in program order (a documented policy choice).

use vstd::prelude::*;

verus! {

/// An evaluation failure, carrying the names and counts a host needs to
/// report it.
#[derive(Debug, PartialEq, Eq)]
pub enum EvalError {
    /// An identifier was read that the current environment does not bind.
    UndefinedVariable { name: String },
    /// A call named a function the program does not define.
    UndefinedFunction { name: String },
    /// A call passed a number of arguments different from the function's
    /// parameter count.
    ArityMismatch { name: String, expected: usize, actual: usize },
    /// The right-hand operand of a division was zero.
    DivisionByZero,
    /// The program has no zero-parameter function named `main`.
    MissingMain,
}

/// The mathematical image of an [`EvalError`]: names as character sequences,
/// counts as unbounded naturals. Contracts and the semantic model speak of
/// this type.
pub enum EvalErrorSpec {
    UndefinedVariable { name: Seq<char> },
    UndefinedFunction { name: Seq<char> },
    ArityMismatch { name: Seq<char>, expected: nat, actual: nat },
    DivisionByZero,
    MissingMain,
}

impl View for EvalError {
    type V = EvalErrorSpec;

    open spec fn view(&self) -> EvalErrorSpec {
        match self {
            EvalError::UndefinedVariable { name } => EvalErrorSpec::UndefinedVariable {
                name: name@,
            },
            EvalError::UndefinedFunction { name } => EvalErrorSpec::UndefinedFunction {
                name: name@,
            },
            EvalError::ArityMismatch { name, expected, actual } => EvalErrorSpec::ArityMismatch {
                name: name@,
                expected: *expected as nat,
                actual: *actual as nat,
            },
            EvalError::DivisionByZero => EvalErrorSpec::DivisionByZero,
            EvalError::MissingMain => EvalErrorSpec::MissingMain,
        }
    }
}

} // verus!
