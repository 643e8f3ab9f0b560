//! The lexer: turns a stream of characters into tokens, one per call.
//!
//! A lexer is described by the text it has not consumed yet
//! ([`Lexer::text`]), the position of the first character of that text
//! ([`Lexer::place`]) and its tab width. What one call of
//! [`Lexer::read_token`] does is the function [`lex`] of these three.
use vstd::prelude::*;

use crate::error::{ErrorCode, ParseError};
use crate::lexer::reader::{CodeReader, StrReader};
use crate::lexer::token::{Token, TokenType};
use crate::position::Position;
use crate::text::{decimal, push_decimal};

pub mod reader;
pub mod token;

verus! {

/// How many characters the lexer reads ahead of the one it looks at.
pub const LOOKAHEAD: usize = 10;

/// The classes of characters that the lexer reads in runs.
pub enum CharClass {
    /// White space.
    Whitespace,
    /// A decimal digit.
    Digit,
    /// A letter, an underscore or a digit.
    Identifier,
    /// Anything but a line break: the body of a `//` comment.
    CommentBody,
    /// Anything but a line break or a double quote: the body of a string.
    StringBody,
}

/// Whether `c` is a decimal digit.
pub open spec fn is_digit_char(c: char) -> bool {
    '0' <= c <= '9'
}

/// Whether `c` has the Unicode property `White_Space`.
pub open spec fn is_whitespace_char(c: char) -> bool {
    let n = c as u32;
    ||| 0x09 <= n <= 0x0d
    ||| n == 0x20
    ||| n == 0x85
    ||| n == 0xa0
    ||| n == 0x1680
    ||| 0x2000 <= n <= 0x200a
    ||| n == 0x2028
    ||| n == 0x2029
    ||| n == 0x202f
    ||| n == 0x205f
    ||| n == 0x3000
}

/// Whether `c` can start an identifier: an ASCII letter or an underscore.
pub open spec fn is_identifier_start_char(c: char) -> bool {
    ('a' <= c <= 'z') || ('A' <= c <= 'Z') || c == '_'
}

impl CharClass {
    /// Whether `c` belongs to the class.
    pub open spec fn holds(self, c: char) -> bool {
        match self {
            CharClass::Whitespace => is_whitespace_char(c),
            CharClass::Digit => is_digit_char(c),
            CharClass::Identifier => is_identifier_start_char(c) || is_digit_char(c),
            CharClass::CommentBody => c != '\n',
            CharClass::StringBody => c != '\n' && c != '"',
        }
    }
}

/// The position of the character that follows `c`, when `c` stands at `p`.
/// A line break starts the next line; a tab moves to the next tab stop; any
/// other character moves one column on. The counters wrap around.
pub open spec fn advance(p: Position, c: char, tabwidth: u32) -> Position {
    if c == '\n' {
        Position { line: p.line.wrapping_add(1), column: 1 }
    } else if c == '\t' {
        let tabdepth = p.column.wrapping_sub(1) / tabwidth;
        Position {
            line: p.line,
            column: 1u32.wrapping_add(tabwidth.wrapping_mul(tabdepth.wrapping_add(1))),
        }
    } else {
        Position { line: p.line, column: p.column.wrapping_add(1) }
    }
}

/// The position behind the text `s`, when its first character stands at `p`.
pub open spec fn advance_all(p: Position, s: Seq<char>, tabwidth: u32) -> Position
    decreases s.len(),
{
    if s.len() == 0 {
        p
    } else {
        advance(advance_all(p, s.drop_last(), tabwidth), s.last(), tabwidth)
    }
}

/// The longest prefix of `text` whose characters all belong to `class`.
pub open spec fn run(text: Seq<char>, class: CharClass) -> Seq<char>
    decreases text.len(),
{
    if text.len() > 0 && class.holds(text[0]) {
        seq![text[0]] + run(text.drop_first(), class)
    } else {
        Seq::empty()
    }
}

/// The text of a `/* */` comment from behind its opening `/*` up to, but
/// not including, the closing `*/`; all of `text` where there is none.
pub open spec fn comment_body(text: Seq<char>) -> Seq<char>
    decreases text.len(),
{
    if text.len() == 0 || (text.len() > 1 && text[0] == '*' && text[1] == '/') {
        Seq::empty()
    } else {
        seq![text[0]] + comment_body(text.drop_first())
    }
}

/// Whether `text` begins with the two characters `a` and `b`.
pub open spec fn starts_with(text: Seq<char>, a: char, b: char) -> bool {
    text.len() > 1 && text[0] == a && text[1] == b
}

/// The reserved words with their token kinds.
pub open spec fn keyword_table() -> Seq<(Seq<char>, TokenType)> {
    seq![
        ("fn"@, TokenType::Fn),
        ("var"@, TokenType::Var),
        ("while"@, TokenType::While),
        ("if"@, TokenType::If),
        ("else"@, TokenType::Else),
        ("loop"@, TokenType::Loop),
        ("break"@, TokenType::Break),
        ("continue"@, TokenType::Continue),
        ("return"@, TokenType::Return),
        ("int"@, TokenType::Int),
    ]
}

/// The kind of the first entry of `table` from index `from` on whose word is
/// `word`, if there is one.
pub open spec fn lookup(table: Seq<(Seq<char>, TokenType)>, word: Seq<char>, from: nat) -> Option<
    TokenType,
>
    decreases table.len() - from,
{
    if from >= table.len() {
        None
    } else if table[from as int].0 == word {
        Some(table[from as int].1)
    } else {
        lookup(table, word, from + 1)
    }
}

/// The token kind of the word `word`: that of the reserved word it is, or
/// `Identifier`.
pub open spec fn word_type(word: Seq<char>) -> TokenType {
    match lookup(keyword_table(), word, 0) {
        Some(ttype) => ttype,
        None => TokenType::Identifier,
    }
}

/// What a call of `read_token` yields.
pub enum Lexeme {
    /// A token: kind, text, position of its first character.
    Token(TokenType, Seq<char>, Position),
    /// An error: code, position, and the offending character (only
    /// meaningful for `UnknownChar`).
    Error(ErrorCode, Position, char),
}

/// The result of one lexing step: what was read, the text left over, and
/// the position of the first character of that text.
pub struct LexStep {
    pub lexeme: Lexeme,
    pub rest: Seq<char>,
    pub place: Position,
}

/// The text shown to the user for an error.
pub open spec fn error_message(code: ErrorCode, c: char) -> Seq<char> {
    match code {
        ErrorCode::UnknownChar => "unknown character "@.push(c) + " (ascii code "@ + decimal(
            c as nat,
        ),
        ErrorCode::UnclosedComment => "unclosed comment"@,
        ErrorCode::UnclosedString => "unclosed string"@,
    }
}

/// The position behind the lookahead window: behind the first `LOOKAHEAD`
/// characters of `text`, or behind all of it where it is shorter.
pub open spec fn window_end(text: Seq<char>, place: Position, tabwidth: u32) -> Position {
    if text.len() <= LOOKAHEAD {
        advance_all(place, text, tabwidth)
    } else {
        advance_all(place, text.take(LOOKAHEAD as int), tabwidth)
    }
}

/// One lexing step on `text`, whose first character stands at `place`.
///
/// White space is skipped. Then: at the end of the text the token is `End`;
/// a digit starts a number, which is the run of digits; `//` starts a
/// comment that reaches to the end of the line, `/*` one that reaches to the
/// next `*/`, and lexing goes on behind either; a letter or underscore
/// starts a word, which is the run of letters, underscores and digits and is
/// a reserved word or an identifier; a double quote starts a string, which
/// reaches to the next double quote on the same line. A `/*` comment or a
/// string that is not closed is an error reported at its first character.
/// Any other character is an error, reported at the end of the lookahead
/// window, and is not consumed.
pub open spec fn lex(text: Seq<char>, place: Position, tabwidth: u32) -> LexStep
    decreases text.len(),
{
    let white = run(text, CharClass::Whitespace);
    let t = text.skip(white.len() as int);
    let p = advance_all(place, white, tabwidth);
    if white.len() > text.len() {
        // never the case: a run is a prefix
        LexStep { lexeme: Lexeme::Token(TokenType::End, Seq::empty(), p), rest: t, place: p }
    } else if t.len() == 0 {
        LexStep { lexeme: Lexeme::Token(TokenType::End, Seq::empty(), p), rest: t, place: p }
    } else if is_digit_char(t[0]) {
        let digits = run(t, CharClass::Digit);
        LexStep {
            lexeme: Lexeme::Token(TokenType::Number, digits, p),
            rest: t.skip(digits.len() as int),
            place: advance_all(p, digits, tabwidth),
        }
    } else if starts_with(t, '/', '/') {
        let body = run(t, CharClass::CommentBody);
        if 0 < body.len() <= t.len() {
            lex(t.skip(body.len() as int), advance_all(p, body, tabwidth), tabwidth)
        } else {
            // never the case: the run holds both slashes
            LexStep { lexeme: Lexeme::Token(TokenType::End, Seq::empty(), p), rest: t, place: p }
        }
    } else if starts_with(t, '/', '*') {
        let body = comment_body(t.skip(2));
        if 2 + body.len() + 2 <= t.len() {
            let whole = t.take(2 + body.len() as int + 2);
            lex(t.skip(2 + body.len() as int + 2), advance_all(p, whole, tabwidth), tabwidth)
        } else {
            LexStep {
                lexeme: Lexeme::Error(ErrorCode::UnclosedComment, p, t[0]),
                rest: Seq::empty(),
                place: advance_all(p, t, tabwidth),
            }
        }
    } else if is_identifier_start_char(t[0]) {
        let word = run(t, CharClass::Identifier);
        LexStep {
            lexeme: Lexeme::Token(word_type(word), word, p),
            rest: t.skip(word.len() as int),
            place: advance_all(p, word, tabwidth),
        }
    } else if t[0] == '"' {
        let body = run(t.skip(1), CharClass::StringBody);
        if 1 + body.len() < t.len() && t[1 + body.len() as int] == '"' {
            LexStep {
                lexeme: Lexeme::Token(TokenType::String, body, p),
                rest: t.skip(1 + body.len() as int + 1),
                place: advance_all(p, t.take(1 + body.len() as int + 1), tabwidth),
            }
        } else {
            LexStep {
                lexeme: Lexeme::Error(ErrorCode::UnclosedString, p, t[0]),
                rest: t.skip(1 + body.len() as int),
                place: advance_all(p, t.take(1 + body.len() as int), tabwidth),
            }
        }
    } else {
        LexStep {
            lexeme: Lexeme::Error(ErrorCode::UnknownChar, window_end(t, p, tabwidth), t[0]),
            rest: t,
            place: p,
        }
    }
}

/// A run is a prefix of the text it was taken from, and all its characters
/// belong to the class; it is the longest such prefix.
pub proof fn lemma_run(text: Seq<char>, class: CharClass)
    ensures
        run(text, class).len() <= text.len(),
        run(text, class) == text.take(run(text, class).len() as int),
        forall|i: int| 0 <= i < run(text, class).len() ==> class.holds(#[trigger] text[i]),
        run(text, class).len() < text.len() ==> !class.holds(text[run(text, class).len() as int]),
    decreases text.len(),
{
    if text.len() > 0 && class.holds(text[0]) {
        let tail = text.drop_first();
        lemma_run(tail, class);
        let r = run(tail, class);
        assert(run(text, class) =~= text.take(r.len() as int + 1));
        assert forall|i: int| 0 <= i < run(text, class).len() implies class.holds(
            #[trigger] text[i],
        ) by {
            if i > 0 {
                assert(text[i] == tail[i - 1]);
            }
        }
        if run(text, class).len() < text.len() {
            assert(text[run(text, class).len() as int] == tail[r.len() as int]);
        }
    } else {
        assert(run(text, class) =~= text.take(0));
    }
}

/// The body of a `/* */` comment is a prefix of the text behind the opening,
/// holds no `*/`, and is followed by the first `*/` or by the end of text.
pub proof fn lemma_comment_body(text: Seq<char>)
    ensures
        comment_body(text).len() <= text.len(),
        comment_body(text) == text.take(comment_body(text).len() as int),
        forall|i: int|
            0 <= i < comment_body(text).len() ==> !starts_with(#[trigger] text.skip(i), '*', '/'),
        comment_body(text).len() < text.len() ==> starts_with(
            text.skip(comment_body(text).len() as int),
            '*',
            '/',
        ),
    decreases text.len(),
{
    if text.len() == 0 || (text.len() > 1 && text[0] == '*' && text[1] == '/') {
        assert(comment_body(text) =~= text.take(0));
        if text.len() > 0 {
            assert(text.skip(0) =~= text);
        }
    } else {
        let tail = text.drop_first();
        lemma_comment_body(tail);
        let b = comment_body(tail);
        assert(comment_body(text) =~= text.take(b.len() as int + 1));
        assert forall|i: int| 0 <= i < comment_body(text).len() implies !starts_with(
            #[trigger] text.skip(i),
            '*',
            '/',
        ) by {
            if i == 0 {
                assert(text.skip(0) =~= text);
            } else {
                assert(text.skip(i) =~= tail.skip(i - 1));
            }
        }
        if comment_body(text).len() < text.len() {
            assert(text.skip(b.len() as int + 1) =~= tail.skip(b.len() as int));
        }
    }
}

/// The position behind a text with one more character at its end.
pub proof fn lemma_advance_all_push(p: Position, s: Seq<char>, c: char, tabwidth: u32)
    ensures
        advance_all(p, s.push(c), tabwidth) == advance(advance_all(p, s, tabwidth), c, tabwidth),
{
    assert(s.push(c).drop_last() =~= s);
    assert(s.push(c).last() == c);
}

/// A character with the position it stands at.
#[derive(Clone, Copy)]
struct CharPos {
    value: char,
    position: Position,
}

impl CharPos {
    /// The character `value` at `position`.
    fn new(value: char, position: Position) -> (ch: CharPos)
        ensures
            ch.value == value,
            ch.position == position,
    {
        CharPos { value, position }
    }
}

/// A reserved word with its token kind.
pub struct Keyword {
    pub word: String,
    pub ttype: TokenType,
}

/// The table of reserved words, as the sequence of pairs it stands for.
pub open spec fn keywords_view(table: Seq<Keyword>) -> Seq<(Seq<char>, TokenType)> {
    Seq::new(table.len(), |i: int| (table[i].word@, table[i].ttype))
}

/// The table of reserved words.
pub fn get_keywords() -> (kws: Vec<Keyword>)
    ensures
        keywords_view(kws@) == keyword_table(),
{
    let mut kws: Vec<Keyword> = Vec::new();
    kws.push(Keyword { word: String::from_str("fn"), ttype: TokenType::Fn });
    kws.push(Keyword { word: String::from_str("var"), ttype: TokenType::Var });
    kws.push(Keyword { word: String::from_str("while"), ttype: TokenType::While });
    kws.push(Keyword { word: String::from_str("if"), ttype: TokenType::If });
    kws.push(Keyword { word: String::from_str("else"), ttype: TokenType::Else });
    kws.push(Keyword { word: String::from_str("loop"), ttype: TokenType::Loop });
    kws.push(Keyword { word: String::from_str("break"), ttype: TokenType::Break });
    kws.push(Keyword { word: String::from_str("continue"), ttype: TokenType::Continue });
    kws.push(Keyword { word: String::from_str("return"), ttype: TokenType::Return });
    kws.push(Keyword { word: String::from_str("int"), ttype: TokenType::Int });
    proof {
        assert(keywords_view(kws@) =~= keyword_table());
    }
    kws
}

/// Whether `c` has the Unicode property `White_Space`.
pub fn is_whitespace(c: char) -> (b: bool)
    ensures
        b == is_whitespace_char(c),
{
    let n: u32 = c as u32;
    (0x09 <= n && n <= 0x0d) || n == 0x20 || n == 0x85 || n == 0xa0 || n == 0x1680 || (0x2000 <= n
        && n <= 0x200a) || n == 0x2028 || n == 0x2029 || n == 0x202f || n == 0x205f || n == 0x3000
}

/// A lexer over the characters of a reader.
pub struct Lexer<T: CodeReader> {
    reader: T,
    position: Position,
    eof_reached: bool,
    tabwidth: u32,
    buffer: Vec<CharPos>,
    keywords: Vec<Keyword>,
}

impl Lexer<StrReader> {
    /// A lexer over `code`, with tab stops every four columns.
    pub fn from_str(code: &str) -> (lexer: Lexer<StrReader>)
        ensures
            lexer.wf(),
            lexer.text() == code@,
            lexer.place() == (Position { line: 1, column: 1 }),
            lexer.tabwidth() == 4,
            lexer.source() == "<<code>>"@,
    {
        Lexer::new(StrReader::new(code))
    }
}

impl<T: CodeReader> Lexer<T> {
    /// The characters in the lookahead buffer.
    closed spec fn buffered(&self) -> Seq<char> {
        Seq::new(self.buffer@.len(), |i: int| self.buffer@[i].value)
    }

    /// The characters that the lexer has read ahead and not consumed.
    pub closed spec fn ahead(&self) -> Seq<char> {
        self.buffered()
    }

    /// The characters that the lexer has not read from its reader yet.
    pub closed spec fn unread(&self) -> Seq<char> {
        self.reader.remaining()
    }

    /// The text that the lexer has not consumed yet.
    pub closed spec fn text(&self) -> Seq<char> {
        self.buffered() + self.reader.remaining()
    }

    /// The position of the first character of the unconsumed text: where
    /// the next token can start at the earliest.
    pub closed spec fn place(&self) -> Position {
        if self.buffer@.len() > 0 {
            self.buffer@[0].position
        } else {
            self.position
        }
    }

    /// The distance between tab stops.
    pub closed spec fn tabwidth(&self) -> u32 {
        self.tabwidth
    }

    /// The name of the source that the lexer reads.
    pub closed spec fn source(&self) -> Seq<char> {
        self.reader.name()
    }

    /// The buffer holds consecutive characters with their positions, and
    /// the running position is the one behind the last of them.
    closed spec fn chained(&self) -> bool {
        &&& self.buffer@.len() <= LOOKAHEAD
        &&& forall|i: int|
            0 <= i < self.buffer@.len() - 1 ==> (#[trigger] self.buffer@[i + 1]).position
                == advance(self.buffer@[i].position, self.buffer@[i].value, self.tabwidth)
        &&& self.buffer@.len() > 0 ==> self.position == advance(
            self.buffer@.last().position,
            self.buffer@.last().value,
            self.tabwidth,
        )
        &&& self.eof_reached ==> self.reader.remaining().len() == 0
        &&& self.tabwidth > 0 || forall|i: int|
            0 <= i < self.reader.remaining().len() ==> self.reader.remaining()[i] != '\t'
        &&& keywords_view(self.keywords@) == keyword_table()
    }

    /// The lexer is in a consistent state between two calls.
    pub closed spec fn wf(&self) -> bool {
        &&& self.chained()
        &&& !self.eof_reached ==> self.buffer@.len() == LOOKAHEAD
    }

    /// A lexer over `reader`, with tab stops every four columns.
    pub fn new(reader: T) -> (lexer: Lexer<T>)
        ensures
            lexer.wf(),
            lexer.text() == reader.remaining(),
            lexer.place() == (Position { line: 1, column: 1 }),
            lexer.tabwidth() == 4,
            lexer.source() == reader.name(),
    {
        Lexer::new_with_tabwidth(reader, 4)
    }

    /// A lexer over `reader`, with tab stops every `tabwidth` columns.
    pub fn new_with_tabwidth(reader: T, tabwidth: u32) -> (lexer: Lexer<T>)
        requires
            tabwidth > 0 || !reader.remaining().contains('\t'),
        ensures
            lexer.wf(),
            lexer.text() == reader.remaining(),
            lexer.place() == (Position { line: 1, column: 1 }),
            lexer.tabwidth() == tabwidth,
            lexer.source() == reader.name(),
    {
        let mut lexer = Lexer::<T> {
            reader: reader,
            position: Position::new(1, 1),
            tabwidth: tabwidth,
            eof_reached: false,
            buffer: Vec::with_capacity(10),
            keywords: get_keywords(),
        };
        proof {
            assert(lexer.buffered() =~= Seq::<char>::empty());
            assert(lexer.text() =~= reader.remaining());
            assert forall|i: int| 0 <= i < reader.remaining().len() && tabwidth == 0 implies reader.remaining()[i]
                != '\t' by {
                assert(reader.remaining().contains(reader.remaining()[i]));
            }
        }
        lexer.fill_buffer();
        lexer
    }

    /// Reads the next token.
    ///
    /// The token, or the error, is the one that [`lex`] gives for the
    /// unconsumed text; the lexer goes on behind what was consumed.
    #[verifier::loop_isolation(false)]
    pub fn read_token(&mut self) -> (r: Result<Token, ParseError>)
        requires
            old(self).wf(),
        ensures
            final(self).wf(),
            final(self).tabwidth() == old(self).tabwidth(),
            final(self).source() == old(self).source(),
            final(self).text() == lex(old(self).text(), old(self).place(), old(self).tabwidth()).rest,
            final(self).place() == lex(
                old(self).text(),
                old(self).place(),
                old(self).tabwidth(),
            ).place,
            match lex(old(self).text(), old(self).place(), old(self).tabwidth()).lexeme {
                Lexeme::Token(ttype, value, position) => r matches Ok(tok) && tok.ttype == ttype
                    && tok.value@ == value && tok.position == position,
                Lexeme::Error(code, position, c) => r matches Err(err) && err.code == code
                    && err.position == position && err.filename@ == old(self).source()
                    && err.message@ == error_message(code, c),
            },
    {
        let ghost goal = lex(old(self).text(), old(self).place(), old(self).tabwidth());
        loop
            invariant
                self.wf(),
                self.tabwidth() == old(self).tabwidth(),
                self.source() == old(self).source(),
                lex(self.text(), self.place(), self.tabwidth()) == goal,
            decreases self.text().len(),
        {
            let ghost text0 = self.text();
            proof {
                lemma_run(text0, CharClass::Whitespace);
            }
            self.skip_white();
            let ghost t = self.text();

            if self.top().is_none() {
                return Ok(Token::new(TokenType::End, self.position));
            }
            if self.is_digit() {
                return self.read_number();
            } else if self.is_comment_start() {
                proof {
                    lemma_run(t, CharClass::CommentBody);
                    assert(CharClass::CommentBody.holds(t[0]));
                }
                match self.read_comment() {
                    Some(err) => return Err(err),
                    _ => {},
                }
            } else if self.is_multi_comment_start() {
                proof {
                    lemma_comment_body(t.skip(2));
                }
                match self.read_multi_comment() {
                    Some(err) => return Err(err),
                    _ => {},
                }
            } else if self.is_identifier_start() {
                return self.read_identifier();
            } else if self.is_string() {
                return self.read_string();
            } else {
                let ch = self.top().unwrap().value;
                proof {
                    self.lemma_window();
                }
                let mut message = String::from_str("unknown character ");
                message.push(ch);
                message.append(" (ascii code ");
                push_decimal(&mut message, ch as u64);
                return Err(
                    ParseError {
                        filename: String::from_str(self.reader.filename()),
                        position: self.position,
                        code: ErrorCode::UnknownChar,
                        message,
                    },
                );
            }
        }
    }

    /// The lookahead: between two calls the lexer holds the first
    /// `LOOKAHEAD` characters of the text that it has not consumed, or all
    /// of that text where it is shorter, and has read no further.
    pub proof fn lemma_lookahead(&self)
        requires
            self.wf(),
        ensures
            self.ahead() == (if self.text().len() <= LOOKAHEAD {
                self.text()
            } else {
                self.text().take(LOOKAHEAD as int)
            }),
            self.text() == self.ahead() + self.unread(),
    {
        if self.eof_reached {
            assert(self.text() =~= self.buffered());
        } else {
            assert(self.text().take(LOOKAHEAD as int) =~= self.buffered());
        }
    }

    /// The running position is the one behind the lookahead window.
    proof fn lemma_window(&self)
        requires
            self.wf(),
        ensures
            self.position == window_end(self.text(), self.place(), self.tabwidth),
    {
        self.lemma_buffer_end(self.buffer@.len() as int);
        assert(self.buffered().take(self.buffer@.len() as int) =~= self.buffered());
        if self.eof_reached {
            assert(self.text() =~= self.buffered());
        } else {
            assert(self.text().take(LOOKAHEAD as int) =~= self.buffered());
        }
    }

    /// The position behind the first `n` buffered characters.
    proof fn lemma_buffer_end(&self, n: int)
        requires
            self.chained(),
            0 <= n <= self.buffer@.len(),
        ensures
            advance_all(self.place(), self.buffered().take(n), self.tabwidth) == if n
                < self.buffer@.len() {
                self.buffer@[n].position
            } else {
                self.position
            },
        decreases n,
    {
        if n > 0 {
            self.lemma_buffer_end(n - 1);
            assert(self.buffered().take(n).drop_last() =~= self.buffered().take(n - 1));
            assert(self.buffered().take(n).last() == self.buffer@[n - 1].value);
            if n < self.buffer@.len() {
                assert(self.buffer@[(n - 1) + 1].position == advance(
                    self.buffer@[n - 1].position,
                    self.buffer@[n - 1].value,
                    self.tabwidth,
                ));
            }
        }
    }

    /// Consumes the white space at the head of the text.
    #[verifier::loop_isolation(false)]
    fn skip_white(&mut self)
        requires
            old(self).wf(),
        ensures
            final(self).wf(),
            final(self).tabwidth() == old(self).tabwidth(),
            final(self).source() == old(self).source(),
            final(self).text() == old(self).text().skip(
                run(old(self).text(), CharClass::Whitespace).len() as int,
            ),
            final(self).place() == advance_all(
                old(self).place(),
                run(old(self).text(), CharClass::Whitespace),
                old(self).tabwidth(),
            ),
    {
        let ghost mut seen: Seq<char> = Seq::empty();
        proof {
            assert(old(self).text().skip(0) =~= old(self).text());
        }
        while self.is_whitespace()
            invariant
                self.wf(),
                self.tabwidth() == old(self).tabwidth(),
                self.source() == old(self).source(),
                seen.len() <= old(self).text().len(),
                self.text() == old(self).text().skip(seen.len() as int),
                self.place() == advance_all(old(self).place(), seen, old(self).tabwidth()),
                seen + run(self.text(), CharClass::Whitespace) == run(
                    old(self).text(),
                    CharClass::Whitespace,
                ),
            decreases self.text().len(),
        {
            let ghost before = self.text();
            self.read_char();
            proof {
                let c = before[0];
                assert(seen.push(c).drop_last() =~= seen);
                assert(seen.push(c) + run(before.drop_first(), CharClass::Whitespace) =~= seen
                    + run(before, CharClass::Whitespace));
                assert(before.drop_first() =~= old(self).text().skip(seen.len() as int + 1));
                seen = seen.push(c);
            }
        }
        proof {
            assert(seen + run(self.text(), CharClass::Whitespace) =~= seen);
        }
    }

    /// Consumes a `//` comment up to the end of its line.
    #[verifier::loop_isolation(false)]
    fn read_comment(&mut self) -> (r: Option<ParseError>)
        requires
            old(self).wf(),
        ensures
            r is None,
            final(self).wf(),
            final(self).tabwidth() == old(self).tabwidth(),
            final(self).source() == old(self).source(),
            final(self).text() == old(self).text().skip(
                run(old(self).text(), CharClass::CommentBody).len() as int,
            ),
            final(self).place() == advance_all(
                old(self).place(),
                run(old(self).text(), CharClass::CommentBody),
                old(self).tabwidth(),
            ),
    {
        let ghost mut seen: Seq<char> = Seq::empty();
        proof {
            assert(old(self).text().skip(0) =~= old(self).text());
        }
        while !self.is_eof() && !self.is_newline()
            invariant
                self.wf(),
                self.tabwidth() == old(self).tabwidth(),
                self.source() == old(self).source(),
                seen.len() <= old(self).text().len(),
                self.text() == old(self).text().skip(seen.len() as int),
                self.place() == advance_all(old(self).place(), seen, old(self).tabwidth()),
                seen + run(self.text(), CharClass::CommentBody) == run(
                    old(self).text(),
                    CharClass::CommentBody,
                ),
            decreases self.text().len(),
        {
            let ghost before = self.text();
            self.read_char();
            proof {
                let c = before[0];
                assert(seen.push(c).drop_last() =~= seen);
                assert(seen.push(c) + run(before.drop_first(), CharClass::CommentBody) =~= seen
                    + run(before, CharClass::CommentBody));
                assert(before.drop_first() =~= old(self).text().skip(seen.len() as int + 1));
                seen = seen.push(c);
            }
        }
        proof {
            assert(seen + run(self.text(), CharClass::CommentBody) =~= seen);
        }
        None
    }

    /// Consumes a `/* */` comment; an error where it is not closed.
    #[verifier::loop_isolation(false)]
    #[verifier::rlimit(60)]
    fn read_multi_comment(&mut self) -> (r: Option<ParseError>)
        requires
            old(self).wf(),
            starts_with(old(self).text(), '/', '*'),
        ensures
            final(self).wf(),
            final(self).tabwidth() == old(self).tabwidth(),
            final(self).source() == old(self).source(),
            ({
                let t = old(self).text();
                let body = comment_body(t.skip(2));
                if 2 + body.len() + 2 <= t.len() {
                    &&& r is None
                    &&& final(self).text() == t.skip(2 + body.len() as int + 2)
                    &&& final(self).place() == advance_all(
                        old(self).place(),
                        t.take(2 + body.len() as int + 2),
                        old(self).tabwidth(),
                    )
                } else {
                    &&& r matches Some(err)
                    &&& err.code == ErrorCode::UnclosedComment
                    &&& err.position == old(self).place()
                    &&& err.filename@ == old(self).source()
                    &&& err.message@ == error_message(ErrorCode::UnclosedComment, t[0])
                    &&& final(self).text() == Seq::<char>::empty()
                    &&& final(self).place() == advance_all(
                        old(self).place(),
                        t,
                        old(self).tabwidth(),
                    )
                }
            }),
    {
        let ghost t = old(self).text();
        let pos = self.top().unwrap().position;

        self.read_char();
        self.read_char();

        let ghost mut seen: Seq<char> = t.take(2);
        proof {
            let origin = old(self).place();
            let tw = old(self).tabwidth();
            assert(t.drop_first().drop_first() =~= t.skip(2));
            assert(t.drop_first()[0] == t[1]);
            assert(Seq::<char>::empty().push(t[0]).push(t[1]) =~= t.take(2));
            assert(advance_all(origin, Seq::<char>::empty(), tw) == origin);
            lemma_advance_all_push(origin, Seq::<char>::empty(), t[0], tw);
            lemma_advance_all_push(origin, Seq::<char>::empty().push(t[0]), t[1], tw);
        }
        while !self.is_eof() && !self.is_multi_comment_end()
            invariant
                self.wf(),
                self.tabwidth() == old(self).tabwidth(),
                self.source() == old(self).source(),
                t == old(self).text(),
                2 <= seen.len() <= t.len(),
                seen == t.take(seen.len() as int),
                self.text() == t.skip(seen.len() as int),
                self.place() == advance_all(old(self).place(), seen, old(self).tabwidth()),
                seen + comment_body(self.text()) == t.take(2) + comment_body(t.skip(2)),
            decreases self.text().len(),
        {
            let ghost before = self.text();
            self.read_char();
            proof {
                let c = before[0];
                assert(seen.push(c).drop_last() =~= seen);
                assert(seen.push(c) + comment_body(before.drop_first()) =~= seen + comment_body(
                    before,
                ));
                assert(before.drop_first() =~= t.skip(seen.len() as int + 1));
                assert(seen.push(c) =~= t.take(seen.len() as int + 1));
                seen = seen.push(c);
            }
        }
        proof {
            lemma_comment_body(t.skip(2));
            assert(seen + comment_body(self.text()) =~= seen);
            assert(seen.len() == 2 + comment_body(t.skip(2)).len());
        }

        if self.is_eof() {
            proof {
                assert(t.take(t.len() as int) =~= t);
                assert(self.text() =~= Seq::<char>::empty());
            }
            return Some(
                ParseError {
                    filename: String::from_str(self.reader.filename()),
                    position: pos,
                    code: ErrorCode::UnclosedComment,
                    message: String::from_str("unclosed comment"),
                },
            );
        }
        let ghost rest = self.text();

        self.read_char();
        self.read_char();

        proof {
            let n = seen.len() as int;
            let origin = old(self).place();
            let tw = old(self).tabwidth();
            assert(rest.drop_first().drop_first() =~= t.skip(n + 2));
            assert(rest.drop_first()[0] == rest[1]);
            assert(seen.push(rest[0]) =~= t.take(n + 1));
            assert(t.take(n + 1).push(rest[1]) =~= t.take(n + 2));
            lemma_advance_all_push(origin, seen, rest[0], tw);
            lemma_advance_all_push(origin, t.take(n + 1), rest[1], tw);
        }
        None
    }

    /// Reads a word: an identifier or a reserved word.
    #[verifier::loop_isolation(false)]
    fn read_identifier(&mut self) -> (r: Result<Token, ParseError>)
        requires
            old(self).wf(),
            old(self).text().len() > 0,
        ensures
            final(self).wf(),
            final(self).tabwidth() == old(self).tabwidth(),
            final(self).source() == old(self).source(),
            final(self).text() == old(self).text().skip(
                run(old(self).text(), CharClass::Identifier).len() as int,
            ),
            final(self).place() == advance_all(
                old(self).place(),
                run(old(self).text(), CharClass::Identifier),
                old(self).tabwidth(),
            ),
            r matches Ok(tok) && tok.ttype == word_type(run(old(self).text(), CharClass::Identifier))
                && tok.value@ == run(old(self).text(), CharClass::Identifier) && tok.position
                == old(self).place(),
    {
        let mut tok = self.build_token(TokenType::Identifier);
        proof {
            assert(old(self).text().skip(0) =~= old(self).text());
            assert(tok.value@ + run(self.text(), CharClass::Identifier) =~= run(
                old(self).text(),
                CharClass::Identifier,
            ));
        }
        while self.is_identifier()
            invariant
                self.wf(),
                self.tabwidth() == old(self).tabwidth(),
                self.source() == old(self).source(),
                tok.ttype == TokenType::Identifier,
                tok.position == old(self).place(),
                tok.value@.len() <= old(self).text().len(),
                self.text() == old(self).text().skip(tok.value@.len() as int),
                self.place() == advance_all(old(self).place(), tok.value@, old(self).tabwidth()),
                tok.value@ + run(self.text(), CharClass::Identifier) == run(
                    old(self).text(),
                    CharClass::Identifier,
                ),
            decreases self.text().len(),
        {
            let ghost before = self.text();
            let ghost seen = tok.value@;
            let ch = self.read_char().unwrap().value;
            tok.value.push(ch);
            proof {
                assert(seen.push(ch).drop_last() =~= seen);
                assert(seen.push(ch) + run(before.drop_first(), CharClass::Identifier) =~= seen
                    + run(before, CharClass::Identifier));
                assert(before.drop_first() =~= old(self).text().skip(seen.len() as int + 1));
            }
        }
        proof {
            assert(tok.value@ + run(self.text(), CharClass::Identifier) =~= tok.value@);
        }

        match self.keyword(&tok.value) {
            Some(ttype) => tok.ttype = ttype,
            _ => {},
        }

        Ok(tok)
    }

    /// The token kind of `word` where it is a reserved word.
    fn keyword(&self, word: &String) -> (r: Option<TokenType>)
        requires
            self.wf(),
        ensures
            r == lookup(keyword_table(), word@, 0),
    {
        let mut i: usize = 0;
        while i < self.keywords.len()
            invariant
                i <= self.keywords@.len(),
                keywords_view(self.keywords@) == keyword_table(),
                lookup(keyword_table(), word@, i as nat) == lookup(keyword_table(), word@, 0),
            decreases self.keywords@.len() - i,
        {
            proof {
                assert(keywords_view(self.keywords@)[i as int] == (
                    self.keywords@[i as int].word@,
                    self.keywords@[i as int].ttype,
                ));
            }
            if self.keywords[i].word == *word {
                return Some(self.keywords[i].ttype);
            }
            i += 1;
        }
        None
    }

    /// Reads a string literal; an error where it is not closed on its line.
    #[verifier::loop_isolation(false)]
    fn read_string(&mut self) -> (r: Result<Token, ParseError>)
        requires
            old(self).wf(),
            old(self).text().len() > 0,
            old(self).text()[0] == '"',
        ensures
            final(self).wf(),
            final(self).tabwidth() == old(self).tabwidth(),
            final(self).source() == old(self).source(),
            ({
                let t = old(self).text();
                let body = run(t.skip(1), CharClass::StringBody);
                if 1 + body.len() < t.len() && t[1 + body.len() as int] == '"' {
                    &&& r matches Ok(tok)
                    &&& tok.ttype == TokenType::String
                    &&& tok.value@ == body
                    &&& tok.position == old(self).place()
                    &&& final(self).text() == t.skip(1 + body.len() as int + 1)
                    &&& final(self).place() == advance_all(
                        old(self).place(),
                        t.take(1 + body.len() as int + 1),
                        old(self).tabwidth(),
                    )
                } else {
                    &&& r matches Err(err)
                    &&& err.code == ErrorCode::UnclosedString
                    &&& err.position == old(self).place()
                    &&& err.filename@ == old(self).source()
                    &&& err.message@ == error_message(ErrorCode::UnclosedString, t[0])
                    &&& final(self).text() == t.skip(1 + body.len() as int)
                    &&& final(self).place() == advance_all(
                        old(self).place(),
                        t.take(1 + body.len() as int),
                        old(self).tabwidth(),
                    )
                }
            }),
    {
        let ghost t = old(self).text();
        let mut tok = self.build_token(TokenType::String);

        self.read_char();

        proof {
            let origin = old(self).place();
            let tw = old(self).tabwidth();
            assert(t.drop_first() =~= t.skip(1));
            assert(Seq::<char>::empty().push(t[0]) =~= t.take(1));
            assert(advance_all(origin, Seq::<char>::empty(), tw) == origin);
            lemma_advance_all_push(origin, Seq::<char>::empty(), t[0], tw);
            assert(tok.value@ + run(self.text(), CharClass::StringBody) =~= run(
                t.skip(1),
                CharClass::StringBody,
            ));
            assert(t.take(1) + tok.value@ =~= t.take(1));
            lemma_run(t.skip(1), CharClass::StringBody);
        }
        while !self.is_eof() && !self.is_newline() && !self.is_string()
            invariant
                self.wf(),
                self.tabwidth() == old(self).tabwidth(),
                self.source() == old(self).source(),
                t == old(self).text(),
                t.len() > 0,
                tok.position == old(self).place(),
                tok.ttype == TokenType::String,
                1 + tok.value@.len() <= t.len(),
                self.text() == t.skip(1 + tok.value@.len() as int),
                t.take(1) + tok.value@ == t.take(1 + tok.value@.len() as int),
                self.place() == advance_all(
                    old(self).place(),
                    t.take(1) + tok.value@,
                    old(self).tabwidth(),
                ),
                tok.value@ + run(self.text(), CharClass::StringBody) == run(
                    t.skip(1),
                    CharClass::StringBody,
                ),
            decreases self.text().len(),
        {
            let ghost before = self.text();
            let ghost seen = tok.value@;
            let ch = self.read_char().unwrap().value;
            tok.value.push(ch);
            proof {
                assert((t.take(1) + seen.push(ch)).drop_last() =~= t.take(1) + seen);
                assert(seen.push(ch) + run(before.drop_first(), CharClass::StringBody) =~= seen
                    + run(before, CharClass::StringBody));
                assert(before.drop_first() =~= t.skip(1 + seen.len() as int + 1));
                assert(t.take(1) + seen.push(ch) =~= t.take(1 + seen.len() as int + 1));
            }
        }
        proof {
            assert(tok.value@ + run(self.text(), CharClass::StringBody) =~= tok.value@);
        }

        if self.is_string() {
            let ghost rest = self.text();
            self.read_char();
            proof {
                let n = 1 + tok.value@.len() as int;
                assert(rest.drop_first() =~= t.skip(n + 1));
                assert(t.take(n + 1).drop_last() =~= t.take(n));
                assert(t.take(n + 1).last() == rest[0]);
            }
            Ok(tok)
        } else {
            Err(
                ParseError {
                    filename: String::from_str(self.reader.filename()),
                    position: tok.position,
                    code: ErrorCode::UnclosedString,
                    message: String::from_str("unclosed string"),
                },
            )
        }
    }

    /// Reads a number: a run of digits.
    #[verifier::loop_isolation(false)]
    fn read_number(&mut self) -> (r: Result<Token, ParseError>)
        requires
            old(self).wf(),
            old(self).text().len() > 0,
        ensures
            final(self).wf(),
            final(self).tabwidth() == old(self).tabwidth(),
            final(self).source() == old(self).source(),
            final(self).text() == old(self).text().skip(
                run(old(self).text(), CharClass::Digit).len() as int,
            ),
            final(self).place() == advance_all(
                old(self).place(),
                run(old(self).text(), CharClass::Digit),
                old(self).tabwidth(),
            ),
            r matches Ok(tok) && tok.ttype == TokenType::Number && tok.value@ == run(
                old(self).text(),
                CharClass::Digit,
            ) && tok.position == old(self).place(),
    {
        let mut tok = self.build_token(TokenType::Number);
        proof {
            assert(old(self).text().skip(0) =~= old(self).text());
            assert(tok.value@ + run(self.text(), CharClass::Digit) =~= run(
                old(self).text(),
                CharClass::Digit,
            ));
        }
        while self.is_digit()
            invariant
                self.wf(),
                self.tabwidth() == old(self).tabwidth(),
                self.source() == old(self).source(),
                tok.position == old(self).place(),
                tok.ttype == TokenType::Number,
                tok.value@.len() <= old(self).text().len(),
                self.text() == old(self).text().skip(tok.value@.len() as int),
                self.place() == advance_all(old(self).place(), tok.value@, old(self).tabwidth()),
                tok.value@ + run(self.text(), CharClass::Digit) == run(
                    old(self).text(),
                    CharClass::Digit,
                ),
            decreases self.text().len(),
        {
            let ghost before = self.text();
            let ghost seen = tok.value@;
            let ch = self.read_char().unwrap().value;
            tok.value.push(ch);
            proof {
                assert(seen.push(ch).drop_last() =~= seen);
                assert(seen.push(ch) + run(before.drop_first(), CharClass::Digit) =~= seen + run(
                    before,
                    CharClass::Digit,
                ));
                assert(before.drop_first() =~= old(self).text().skip(seen.len() as int + 1));
            }
        }
        proof {
            assert(tok.value@ + run(self.text(), CharClass::Digit) =~= tok.value@);
        }
        Ok(tok)
    }

    /// Consumes one character and refills the lookahead buffer.
    fn read_char(&mut self) -> (r: Option<CharPos>)
        requires
            old(self).wf(),
        ensures
            final(self).wf(),
            final(self).tabwidth() == old(self).tabwidth(),
            final(self).source() == old(self).source(),
            old(self).text().len() == 0 ==> r is None && final(self).text() == old(self).text()
                && final(self).place() == old(self).place(),
            old(self).text().len() > 0 ==> (r matches Some(ch) && ch.value == old(self).text()[0]
                && ch.position == old(self).place()),
            old(self).text().len() > 0 ==> final(self).text() == old(self).text().drop_first(),
            old(self).text().len() > 0 ==> final(self).place() == advance(
                old(self).place(),
                old(self).text()[0],
                old(self).tabwidth(),
            ),
    {
        if self.buffer.len() > 0 {
            let ghost before = self.buffer@;
            let ghost buffered = self.buffered();
            let ch = self.buffer.remove(0);
            proof {
                assert(self.buffered() =~= buffered.drop_first());
                assert(self.text() =~= old(self).text().drop_first());
                assert forall|i: int| 0 <= i < self.buffer@.len() - 1 implies (
                #[trigger] self.buffer@[i + 1]).position == advance(
                    self.buffer@[i].position,
                    self.buffer@[i].value,
                    self.tabwidth,
                ) by {
                    assert(self.buffer@[i + 1] == before[i + 2]);
                    assert(self.buffer@[i] == before[i + 1]);
                }
                if self.buffer@.len() > 0 {
                    assert(self.buffer@[0] == before[1]);
                    assert(self.buffer@.last() == before.last());
                }
            }
            self.fill_buffer();
            Some(ch)
        } else {
            proof {
                assert(self.buffered() =~= Seq::<char>::empty());
            }
            None
        }
    }

    /// The character at the head of the text, with its position.
    fn top(&self) -> (r: Option<CharPos>)
        requires
            self.wf(),
        ensures
            self.text().len() == 0 ==> r is None,
            self.text().len() > 0 ==> (r matches Some(ch) && ch.value == self.text()[0]
                && ch.position == self.place()),
    {
        self.at(0)
    }

    /// The character `index` places behind the head of the text.
    fn at(&self, index: usize) -> (r: Option<CharPos>)
        requires
            self.wf(),
            index < LOOKAHEAD,
        ensures
            self.text().len() <= index ==> r is None,
            self.text().len() > index ==> (r matches Some(ch) && ch.value == self.text()[index as int]),
            self.text().len() > 0 && index == 0 ==> (r matches Some(ch) && ch.position
                == self.place()),
    {
        if self.buffer.len() > index {
            Some(self.buffer[index])
        } else {
            None
        }
    }

    /// A token of kind `ttype` at the head of the text, with empty text.
    fn build_token(&self, ttype: TokenType) -> (tok: Token)
        requires
            self.wf(),
            self.text().len() > 0,
        ensures
            tok.ttype == ttype,
            tok.value@ == Seq::<char>::empty(),
            tok.position == self.place(),
    {
        Token::new(ttype, self.top().unwrap().position)
    }

    /// Reads ahead until the buffer is full or the reader is exhausted.
    #[verifier::loop_isolation(false)]
    fn fill_buffer(&mut self)
        requires
            old(self).chained(),
        ensures
            final(self).wf(),
            final(self).tabwidth() == old(self).tabwidth(),
            final(self).source() == old(self).source(),
            final(self).text() == old(self).text(),
            final(self).place() == old(self).place(),
    {
        while !self.eof_reached && self.buffer.len() < 10
            invariant
                self.chained(),
                self.tabwidth() == old(self).tabwidth(),
                self.source() == old(self).source(),
                self.text() == old(self).text(),
                self.place() == old(self).place(),
            decreases
                    (if self.eof_reached {
                        0
                    } else {
                        1 + self.reader.remaining().len()
                    }),
        {
            let ghost before = self.buffer@;
            let ghost buffered = self.buffered();
            let ghost remaining = self.reader.remaining();
            let ch = self.reader.read_char();

            if ch.is_some() {
                let ch = ch.unwrap();
                self.buffer.push(CharPos::new(ch, self.position));
                proof {
                    assert(self.buffered() =~= buffered.push(ch));
                    assert(self.text() =~= old(self).text());
                    assert(ch == '\t' ==> self.tabwidth > 0) by {
                        assert(remaining[0] == ch);
                    }
                    assert forall|i: int|
                        0 <= i < self.reader.remaining().len() && self.tabwidth
                            == 0 implies self.reader.remaining()[i] != '\t' by {
                        assert(self.reader.remaining()[i] == remaining[i + 1]);
                    }
                }

                if ch == '\n' {
                    self.position.line = self.position.line.wrapping_add(1);
                    self.position.column = 1;
                } else if ch == '\t' {
                    let tabdepth: u32 = self.position.column.wrapping_sub(1) / self.tabwidth;
                    self.position.column = 1u32.wrapping_add(
                        self.tabwidth.wrapping_mul(tabdepth.wrapping_add(1)),
                    );
                } else {
                    self.position.column = self.position.column.wrapping_add(1);
                }
                proof {
                    assert forall|i: int| 0 <= i < self.buffer@.len() - 1 implies (
                    #[trigger] self.buffer@[i + 1]).position == advance(
                        self.buffer@[i].position,
                        self.buffer@[i].value,
                        self.tabwidth,
                    ) by {
                        if i + 1 < before.len() {
                            assert(self.buffer@[i + 1] == before[i + 1]);
                            assert(self.buffer@[i] == before[i]);
                        } else {
                            assert(self.buffer@[i] == before.last());
                        }
                    }
                }
            } else {
                self.eof_reached = true;
            }
        }
    }

    /// Whether the text begins with `//`.
    fn is_comment_start(&self) -> (b: bool)
        requires
            self.wf(),
        ensures
            b == starts_with(self.text(), '/', '/'),
    {
        let top = self.top();
        let ntop = self.at(1);

        top.is_some() && top.unwrap().value == '/' && ntop.is_some() && ntop.unwrap().value == '/'
    }

    /// Whether the text begins with `/*`.
    fn is_multi_comment_start(&self) -> (b: bool)
        requires
            self.wf(),
        ensures
            b == starts_with(self.text(), '/', '*'),
    {
        let top = self.top();
        let ntop = self.at(1);

        top.is_some() && top.unwrap().value == '/' && ntop.is_some() && ntop.unwrap().value == '*'
    }

    /// Whether the text begins with `*/`.
    fn is_multi_comment_end(&self) -> (b: bool)
        requires
            self.wf(),
        ensures
            b == starts_with(self.text(), '*', '/'),
    {
        let top = self.top();
        let ntop = self.at(1);

        top.is_some() && top.unwrap().value == '*' && ntop.is_some() && ntop.unwrap().value == '/'
    }

    /// Whether the text begins with a digit.
    fn is_digit(&self) -> (b: bool)
        requires
            self.wf(),
        ensures
            b == (self.text().len() > 0 && is_digit_char(self.text()[0])),
    {
        let top = self.top();

        top.is_some() && top.unwrap().value >= '0' && top.unwrap().value <= '9'
    }

    /// Whether the text begins with white space.
    fn is_whitespace(&self) -> (b: bool)
        requires
            self.wf(),
        ensures
            b == (self.text().len() > 0 && is_whitespace_char(self.text()[0])),
    {
        let top = self.top();

        top.is_some() && is_whitespace(top.unwrap().value)
    }

    /// Whether the text begins with a letter or an underscore.
    fn is_identifier_start(&self) -> (b: bool)
        requires
            self.wf(),
        ensures
            b == (self.text().len() > 0 && is_identifier_start_char(self.text()[0])),
    {
        let top = self.top();
        if top.is_none() {
            return false;
        }
        let ch = top.unwrap().value;

        (ch >= 'a' && ch <= 'z') || (ch >= 'A' && ch <= 'Z') || ch == '_'
    }

    /// Whether the text begins with a letter, an underscore or a digit.
    fn is_identifier(&self) -> (b: bool)
        requires
            self.wf(),
        ensures
            b == (self.text().len() > 0 && CharClass::Identifier.holds(self.text()[0])),
    {
        self.is_identifier_start() || self.is_digit()
    }

    /// Whether the text begins with a line break.
    fn is_newline(&self) -> (b: bool)
        requires
            self.wf(),
        ensures
            b == (self.text().len() > 0 && self.text()[0] == '\n'),
    {
        let top = self.top();

        top.is_some() && top.unwrap().value == '\n'
    }

    /// Whether the text begins with a double quote.
    fn is_string(&self) -> (b: bool)
        requires
            self.wf(),
        ensures
            b == (self.text().len() > 0 && self.text()[0] == '"'),
    {
        let top = self.top();

        top.is_some() && top.unwrap().value == '\"'
    }

    /// Whether the text is exhausted.
    fn is_eof(&self) -> (b: bool)
        requires
            self.wf(),
        ensures
            b == (self.text().len() == 0),
    {
        self.top().is_none()
    }
}

} // verus!
