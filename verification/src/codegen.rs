//! Lowering of an analyzed program to textual LLVM IR: object layouts,
//! per-type virtual method tables, a module-level super-vtable indexed by
//! type-id, and dynamic dispatch through a two-level lookup.

pub mod context;
pub mod generator;
pub mod types_helper;
pub mod utils;
pub mod visitor;
