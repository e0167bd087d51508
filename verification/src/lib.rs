//! A dependently-typed data description language: core terms, semantic
//! values with normalization by evaluation, pattern unification, a
//! bidirectional elaborator, and a binary interpreter that reads byte
//! buffers against format descriptions.

pub mod binary;
pub mod diagnostics;
pub mod elaborate;
pub mod prims;
pub mod render;
pub mod semantics;
pub mod surface;
pub mod syntax;
pub mod unify;
