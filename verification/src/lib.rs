//! The core of a baseline just-in-time compiler for a managed language,
//! with its proofs.
//!
//! The compiler takes the register bytecode of a function ([`bytecode`])
//! and generates code for it, one instruction at a time ([`cannon`]).
//! Bytecode with a defect is not compiled: it is told from the rest
//! beforehand ([`cannon::defect`]). The
//! code is a sequence of machine operations that the emitter collects
//! ([`masm`]); once it stands in memory it is described by an artifact with
//! tables of safepoints, source positions and comments ([`compiler::fct`]).
//! The bytecode can be traced ([`bytecode::dumper`]).
//!
//! Beside it stand the lexer of the source language ([`lexer`]) and the
//! code generator for expressions of the syntax tree ([`jit`]).
//!
//! What is proved of the generated code is stated in [`cannon::laws`] and
//! [`cannon::machine`].
pub mod ast;
pub mod bytecode;
pub mod cannon;
pub mod compiler;
pub mod cpu;
pub mod ctxt;
pub mod error;
pub mod gc;
pub mod jit;
pub mod lexer;
pub mod masm;
pub mod opt;
pub mod position;
pub mod text;
pub mod ty;
pub mod vm;
