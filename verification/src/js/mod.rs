//! What is decided about scripts apart from the interpreter.

pub mod eval;
