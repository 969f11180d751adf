//! Compile-time binding compiler for an embedded interpreter runtime.
//!
//! The crate consumes an in-memory declaration of a module — an ordered
//! sequence of annotated item declarations — and emits a registration plan
//! that exposes the annotated entities to the runtime: one registration
//! statement per resolved binding, each wrapped in the conditional-compilation
//! guards that preceded its role annotation, plus the validated module name.
//! It operates purely over this syntactic model; parsing source text and
//! rendering the plan back into tokens are the callers' concern.

pub mod ast;
pub mod errors;
pub mod classify;
pub mod generate;
pub mod nursery;
pub mod assemble;
pub mod laws;
