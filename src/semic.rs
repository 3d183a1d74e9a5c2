//! The richer dialect: floats, strings, pointers, control flow and printing.
//! Only its syntax tree exists; no pass checks it yet.
pub mod ast;
