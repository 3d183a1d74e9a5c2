//! Semantic declaration checking for a small C-like language: a scoped
//! symbol table and the pass that detects conflicting top-level
//! declarations.
pub mod cmm;
pub mod env;
pub mod semic;
