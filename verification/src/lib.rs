//! A tree-walking evaluator for a small imperative, expression-oriented
//! language: integer arithmetic and comparisons, mutable variables, blocks,
//! conditionals, loops, and user-defined functions with call-by-value
//! parameters.
//!
//! The abstract syntax tree lives in [`ast`], the variable store in
//! [`environment`], and the recursive evaluator in [`interpreter`]. The
//! meaning of every construct is pinned down by the specification functions
//! in [`semantics`]; the executable evaluator is verified to return exactly
//! what those functions say, and [`laws`] proves the semantic properties the
//! language guarantees (determinism, evaluation order, scope isolation,
//! arity enforcement, division semantics).

pub mod ast;
pub mod environment;
pub mod errors;
pub mod interpreter;
pub mod laws;
pub mod semantics;
