//! Semantic analysis and LLVM IR emission for a small expression-oriented
//! language with numbers, booleans, strings, first-class functions,
//! let-bindings, control flow, and a nominal object system with single
//! inheritance, instance fields, and virtual methods.
//!
//! The crate takes a parsed program (see `ast`), checks it (`semantic`), and
//! lowers it to textual LLVM IR (`codegen`).  Both traversals are specified
//! against functional models, so analysing or emitting the same program twice
//! gives identical diagnostics, annotations, and output text.

pub mod ast;
pub mod codegen;
pub mod semantic;
pub mod strmap;
pub mod symbol_table;
pub mod text;
pub mod types_tree;

pub mod tokens;
