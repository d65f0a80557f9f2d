//! Semantic analysis: scope-aware type checking of the AST against the type
//! registry, accumulating structured diagnostics and per-node annotations.

pub mod errors;
pub mod analyzer;
pub mod model;
