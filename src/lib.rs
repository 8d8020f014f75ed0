//! Ownership-checked handles for a constraint-solving engine.
//!
//! Every term, vector and rule-solving engine is bound to the environment that made it.
//! The functions here check, before any request reaches the engine, that operands share
//! one environment, that indices are in bounds and that handles are not null. They build
//! each request as plain values for the native layer to carry out.

pub mod algebraic;
pub mod ast;
pub mod ast_vector;
pub mod context;
pub mod fixedpoint;
pub mod polynomial;
pub mod quantifier_elimination;
