//! Sources of characters for the lexer.
use vstd::prelude::*;

use crate::text::to_chars;

verus! {

/// A stream of characters with a name.
pub trait CodeReader {
    /// The characters not yet handed out.
    spec fn remaining(&self) -> Seq<char>;

    /// The name of the source.
    spec fn name(&self) -> Seq<char>;

    /// Hands out the next character, or `None` once the stream is exhausted.
    fn read_char(&mut self) -> (c: Option<char>)
        ensures
            final(self).name() == old(self).name(),
            old(self).remaining().len() == 0 ==> c is None,
            old(self).remaining().len() == 0 ==> final(self).remaining() == old(self).remaining(),
            old(self).remaining().len() > 0 ==> c == Some(old(self).remaining()[0]),
            old(self).remaining().len() > 0 ==> final(self).remaining() == old(self).remaining().drop_first(),
    ;

    /// The name of the source.
    fn filename(&self) -> (s: &str)
        ensures
            s@ == self.name(),
    ;
}

/// A reader over a text held in memory.
pub struct StrReader {
    chars: Vec<char>,
    next: usize,
    filename: String,
}

impl StrReader {
    /// A reader over `code`, named `<<code>>`.
    pub fn new(code: &str) -> (r: StrReader)
        ensures
            r.remaining() == code@,
            r.name() == "<<code>>"@,
    {
        StrReader::with_filename(code, "<<code>>")
    }

    /// A reader over `code`, named `filename`.
    pub fn with_filename(code: &str, filename: &str) -> (r: StrReader)
        ensures
            r.remaining() == code@,
            r.name() == filename@,
    {
        let chars = to_chars(code);
        proof {
            assert(chars@.subrange(0, chars@.len() as int) == chars@);
        }
        StrReader { chars, next: 0, filename: String::from_str(filename) }
    }
}

impl CodeReader for StrReader {
    closed spec fn remaining(&self) -> Seq<char> {
        if self.next <= self.chars@.len() {
            self.chars@.subrange(self.next as int, self.chars@.len() as int)
        } else {
            Seq::empty()
        }
    }

    closed spec fn name(&self) -> Seq<char> {
        self.filename@
    }

    fn read_char(&mut self) -> (c: Option<char>) {
        if self.next < self.chars.len() {
            let c = self.chars[self.next];
            self.next = self.next + 1;
            Some(c)
        } else {
            None
        }
    }

    fn filename(&self) -> (s: &str) {
        self.filename.as_str()
    }
}

} // verus!
