//! Source positions.
use vstd::prelude::*;

verus! {

/// A place in a source text: line and column, both counted from one.
#[derive(Clone, Copy, Debug, PartialEq, Eq, Structural)]
pub struct Position {
    pub line: u32,
    pub column: u32,
}

impl Position {
    /// The position at `line` and `column`.
    pub fn new(line: u32, column: u32) -> (p: Position)
        ensures
            p.line == line,
            p.column == column,
    {
        Position { line, column }
    }
}

} // verus!
