//! The checked dialect: its syntax tree, its declaration checker, and what
//! the checker is proved to guarantee.
pub mod ast;
pub mod checker;
pub mod laws;
