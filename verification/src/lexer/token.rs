//! Tokens.
use vstd::prelude::*;

use crate::position::Position;

verus! {

/// The kind of a token.
#[derive(Clone, Copy, Debug, PartialEq, Eq, Structural)]
pub enum TokenType {
    String,
    Number,
    Identifier,
    End,
    Fn,
    Var,
    While,
    If,
    Else,
    Loop,
    Break,
    Continue,
    Return,
    Int,
}

/// A token: its kind, its text and the position of its first character.
#[derive(Debug)]
pub struct Token {
    pub ttype: TokenType,
    pub value: String,
    pub position: Position,
}

impl Token {
    /// A token of kind `ttype` at `position`, with empty text.
    pub fn new(ttype: TokenType, position: Position) -> (tok: Token)
        ensures
            tok.ttype == ttype,
            tok.value@ == Seq::<char>::empty(),
            tok.position == position,
    {
        Token { ttype, value: String::new(), position }
    }
}

} // verus!
