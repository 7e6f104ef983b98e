//! Middle end of a compiler for a small ML-family language.
//!
//! The pipeline desugars a surface AST into a core AST, infers types,
//! compiles pattern matches into decision trees, builds a
//! closure-converted higher IR (HIR), and flattens that into a
//! CFG-structured low IR (MIR) of extended basic blocks.

pub mod ast;
pub mod desugar;
pub mod hir;
pub mod lower;
pub mod mir;
pub mod pattern;
pub mod prim;
pub mod typing;
pub mod util;
