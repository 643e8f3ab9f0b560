//! What the compilers share: the artifact that describes compiled code,
//! and the reading of the diagnostic settings.
pub mod codegen;
pub mod fct;
