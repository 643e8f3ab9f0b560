use dora::error::ErrorCode;
use dora::lexer::reader::StrReader;
use dora::lexer::token::TokenType;
use dora::lexer::Lexer;

fn assert_end(reader: &mut Lexer<StrReader>, l: u32, c: u32) {
    assert_tok(reader, TokenType::End, "", l, c);
}

fn assert_tok(reader: &mut Lexer<StrReader>, ttype: TokenType, val: &'static str, l: u32, c: u32) {
    let tok = reader.read_token().unwrap();
    assert_eq!(ttype, tok.ttype);
    assert_eq!(val, tok.value);
    assert_eq!(l, tok.position.line);
    assert_eq!(c, tok.position.column);
}

fn assert_err(reader: &mut Lexer<StrReader>, code: ErrorCode, l: u32, c: u32) {
    let err = reader.read_token().unwrap_err();
    assert_eq!(code, err.code);
    assert_eq!(l, err.position.line);
    assert_eq!(c, err.position.column);
}

#[test]
fn test_read_empty_file() {
    let mut reader = Lexer::from_str("");
    assert_end(&mut reader, 1, 1);
    assert_end(&mut reader, 1, 1);
}

#[test]
fn test_read_numbers() {
    let mut reader = Lexer::from_str("1 2\n0123 10");
    assert_tok(&mut reader, TokenType::Number, "1", 1, 1);
    assert_tok(&mut reader, TokenType::Number, "2", 1, 3);
    assert_tok(&mut reader, TokenType::Number, "0123", 2, 1);
    assert_tok(&mut reader, TokenType::Number, "10", 2, 6);
    assert_end(&mut reader, 2, 8);
}

#[test]
fn test_skip_single_line_comment() {
    let mut reader = Lexer::from_str("//test\n1");
    assert_tok(&mut reader, TokenType::Number, "1", 2, 1);
    assert_end(&mut reader, 2, 2);
}

#[test]
fn test_unfinished_line_comment() {
    let mut reader = Lexer::from_str("//abc");
    assert_end(&mut reader, 1, 6);
}

#[test]
fn test_skip_multi_comment() {
    let mut reader = Lexer::from_str("/*test*/1");
    assert_tok(&mut reader, TokenType::Number, "1", 1, 9);
    assert_end(&mut reader, 1, 10);
}

#[test]
fn test_unfinished_multi_comment() {
    let mut reader = Lexer::from_str("/*test");
    assert_err(&mut reader, ErrorCode::UnclosedComment, 1, 1);

    let mut reader = Lexer::from_str("1/*test");
    assert_tok(&mut reader, TokenType::Number, "1", 1, 1);
    assert_err(&mut reader, ErrorCode::UnclosedComment, 1, 2);
}

#[test]
fn test_read_identifier() {
    let mut reader = Lexer::from_str("abc ident test");
    assert_tok(&mut reader, TokenType::Identifier, "abc", 1, 1);
    assert_tok(&mut reader, TokenType::Identifier, "ident", 1, 5);
    assert_tok(&mut reader, TokenType::Identifier, "test", 1, 11);
    assert_end(&mut reader, 1, 15);
}

#[test]
fn test_code_with_spaces() {
    let mut reader = Lexer::from_str("1 2 3");
    assert_tok(&mut reader, TokenType::Number, "1", 1, 1);
    assert_tok(&mut reader, TokenType::Number, "2", 1, 3);
    assert_tok(&mut reader, TokenType::Number, "3", 1, 5);
    assert_end(&mut reader, 1, 6);
}

#[test]
fn test_code_with_newlines() {
    let mut reader = Lexer::from_str("1\n2\n3");
    assert_tok(&mut reader, TokenType::Number, "1", 1, 1);
    assert_tok(&mut reader, TokenType::Number, "2", 2, 1);
    assert_tok(&mut reader, TokenType::Number, "3", 3, 1);
    assert_end(&mut reader, 3, 2);
}

#[test]
fn test_code_with_tabs() {
    let mut reader = Lexer::from_str("1\t2\t3");
    assert_tok(&mut reader, TokenType::Number, "1", 1, 1);
    assert_tok(&mut reader, TokenType::Number, "2", 1, 5);
    assert_tok(&mut reader, TokenType::Number, "3", 1, 9);
    assert_end(&mut reader, 1, 10);
}

#[test]
fn test_code_with_tabwidth8() {
    let str_reader = StrReader::new("1\t2\n1234567\t8\n12345678\t9");
    let mut reader = Lexer::new_with_tabwidth(str_reader, 8);

    assert_tok(&mut reader, TokenType::Number, "1", 1, 1);
    assert_tok(&mut reader, TokenType::Number, "2", 1, 9);
    assert_tok(&mut reader, TokenType::Number, "1234567", 2, 1);
    assert_tok(&mut reader, TokenType::Number, "8", 2, 9);
    assert_tok(&mut reader, TokenType::Number, "12345678", 3, 1);
    assert_tok(&mut reader, TokenType::Number, "9", 3, 17);
    assert_end(&mut reader, 3, 18);
}

#[test]
fn test_string_with_newline() {
    let mut reader = Lexer::from_str("\"abc\ndef\"");
    assert_err(&mut reader, ErrorCode::UnclosedString, 1, 1);
}

#[test]
fn test_unclosed_string() {
    let mut reader = Lexer::from_str("\"abc");
    assert_err(&mut reader, ErrorCode::UnclosedString, 1, 1);
}

#[test]
fn test_string() {
    let mut reader = Lexer::from_str("\"abc\"");
    assert_tok(&mut reader, TokenType::String, "abc", 1, 1);
    assert_end(&mut reader, 1, 6);
}

#[test]
fn test_keywords() {
    let mut reader = Lexer::from_str("fn var while if else");
    assert_tok(&mut reader, TokenType::Fn, "fn", 1, 1);
    assert_tok(&mut reader, TokenType::Var, "var", 1, 4);
    assert_tok(&mut reader, TokenType::While, "while", 1, 8);
    assert_tok(&mut reader, TokenType::If, "if", 1, 14);
    assert_tok(&mut reader, TokenType::Else, "else", 1, 17);

    let mut reader = Lexer::from_str("loop break continue return int");
    assert_tok(&mut reader, TokenType::Loop, "loop", 1, 1);
    assert_tok(&mut reader, TokenType::Break, "break", 1, 6);
    assert_tok(&mut reader, TokenType::Continue, "continue", 1, 12);
    assert_tok(&mut reader, TokenType::Return, "return", 1, 21);
    assert_tok(&mut reader, TokenType::Int, "int", 1, 28);
}

#[test]
fn test_unknown_char_is_reported_and_not_consumed() {
    let mut reader = Lexer::from_str("1 $");
    assert_tok(&mut reader, TokenType::Number, "1", 1, 1);
    let err = reader.read_token().unwrap_err();
    assert_eq!(ErrorCode::UnknownChar, err.code);
    assert_eq!("unknown character $ (ascii code 36", err.message);
    assert_eq!("<<code>>", err.filename);
    // the position is that behind the lookahead window, here the end of input
    assert_eq!(1, err.position.line);
    assert_eq!(4, err.position.column);
    // the character stays where it is
    let again = reader.read_token().unwrap_err();
    assert_eq!(ErrorCode::UnknownChar, again.code);
}

#[test]
fn test_unknown_char_position_is_end_of_lookahead() {
    let mut reader = Lexer::from_str("$23456789012345");
    let err = reader.read_token().unwrap_err();
    assert_eq!(ErrorCode::UnknownChar, err.code);
    assert_eq!(1, err.position.line);
    assert_eq!(11, err.position.column);
}

#[test]
fn test_error_messages() {
    let mut reader = Lexer::from_str("/* never closed");
    let err = reader.read_token().unwrap_err();
    assert_eq!("unclosed comment", err.message);

    let mut reader = Lexer::from_str("\"never closed");
    let err = reader.read_token().unwrap_err();
    assert_eq!("unclosed string", err.message);
}

#[test]
fn test_reader_with_filename() {
    let reader = StrReader::with_filename("?", "prog.dora");
    let mut lexer = Lexer::new(reader);
    let err = lexer.read_token().unwrap_err();
    assert_eq!("prog.dora", err.filename);
}

#[test]
fn test_multi_comment_needs_both_closing_characters() {
    let mut reader = Lexer::from_str("/*/ 1");
    assert_err(&mut reader, ErrorCode::UnclosedComment, 1, 1);

    let mut reader = Lexer::from_str("/**/1 /* a * b / c **/ 2");
    assert_tok(&mut reader, TokenType::Number, "1", 1, 5);
    assert_tok(&mut reader, TokenType::Number, "2", 1, 24);
}

#[test]
fn test_identifier_with_digits_and_underscore() {
    let mut reader = Lexer::from_str("_a1 b_2 fnx If");
    assert_tok(&mut reader, TokenType::Identifier, "_a1", 1, 1);
    assert_tok(&mut reader, TokenType::Identifier, "b_2", 1, 5);
    assert_tok(&mut reader, TokenType::Identifier, "fnx", 1, 9);
    assert_tok(&mut reader, TokenType::Identifier, "If", 1, 13);
    assert_end(&mut reader, 1, 15);
}

#[test]
fn test_number_directly_followed_by_word() {
    let mut reader = Lexer::from_str("12ab");
    assert_tok(&mut reader, TokenType::Number, "12", 1, 1);
    assert_tok(&mut reader, TokenType::Identifier, "ab", 1, 3);
}

#[test]
fn test_long_token_spans_lookahead_window() {
    let mut reader = Lexer::from_str("  abcdefghijklmnopqrstuvwxyz0123456789 \"0123456789abcdef\"");
    assert_tok(&mut reader, TokenType::Identifier, "abcdefghijklmnopqrstuvwxyz0123456789", 1, 3);
    assert_tok(&mut reader, TokenType::String, "0123456789abcdef", 1, 40);
    assert_end(&mut reader, 1, 58);
}

#[test]
fn test_whitespace_agrees_with_std() {
    let mut n: u32 = 0;
    while n <= 0x10ffff {
        if let Some(c) = char::from_u32(n) {
            assert_eq!(c.is_whitespace(), dora::lexer::is_whitespace(c), "U+{:04X}", n);
        }
        n += 1;
    }
}

#[test]
fn test_keyword_table() {
    let kws = dora::lexer::get_keywords();
    assert_eq!(10, kws.len());
    assert_eq!("fn", kws[0].word);
    assert_eq!(TokenType::Fn, kws[0].ttype);
    assert_eq!("int", kws[9].word);
    assert_eq!(TokenType::Int, kws[9].ttype);
}

#[test]
fn test_unicode_whitespace_is_skipped() {
    let mut reader = Lexer::from_str("\u{a0}1\u{2003}2");
    assert_tok(&mut reader, TokenType::Number, "1", 1, 2);
    assert_tok(&mut reader, TokenType::Number, "2", 1, 4);
}
