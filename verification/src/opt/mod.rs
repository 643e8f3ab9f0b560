//! Code produced by the optimising compiler.
pub mod fct;
