//! The code generator for expressions of the syntax tree.
pub mod expr;
pub mod model;
