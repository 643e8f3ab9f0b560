//! Errors reported while reading source text.
use vstd::prelude::*;

use crate::position::Position;

verus! {

/// What went wrong while lexing.
#[derive(Clone, Copy, Debug, PartialEq, Eq, Structural)]
pub enum ErrorCode {
    /// A character that starts no token.
    UnknownChar,
    /// A `/*` comment without its closing `*/`.
    UnclosedComment,
    /// A string literal that meets a line break or the end of input.
    UnclosedString,
}

/// A lexing error with the place it refers to.
#[derive(Debug)]
pub struct ParseError {
    pub filename: String,
    pub position: Position,
    pub code: ErrorCode,
    pub message: String,
}

} // verus!
