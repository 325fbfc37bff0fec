use haze::errors::Loc;
use haze::lexer::{Lexer, StringError};
use haze::token::{Span, Tag, Token};

fn lex_all(source: &str) -> Vec<Token> {
    let mut lexer = Lexer::from(source);
    let mut tokens = Vec::new();
    while let Some(tok) = lexer.next_token() {
        tokens.push(tok);
    }
    tokens
}

#[test]
fn lexes_a_function_header() {
    let tokens = lex_all("fn f(a: int) -> int");
    let tags: Vec<Tag> = tokens.iter().map(|t| t.tag).collect();
    assert_eq!(
        tags,
        vec![
            Tag::KwFn,
            Tag::Ident,
            Tag::LParen,
            Tag::Ident,
            Tag::Colon,
            Tag::Ident,
            Tag::RParen,
            Tag::Arrow,
            Tag::Ident,
        ]
    );
    assert_eq!(tokens[1].value, "f");
    assert_eq!(tokens[3].value, "a");
    assert_eq!(tokens[5].value, "int");
}

#[test]
fn lexes_operators_and_positions() {
    let tokens = lex_all("a += b == c");
    assert_eq!(tokens[0].tag, Tag::Ident);
    assert_eq!(tokens[1].tag, Tag::PlusEqual);
    assert_eq!(tokens[2].tag, Tag::Ident);
    assert_eq!(tokens[3].tag, Tag::EqualEqual);
    assert_eq!(tokens[1].pos, 2);
    assert_eq!(tokens[3].pos, 7);
}

#[test]
fn lexes_keywords_and_literals() {
    let tokens = lex_all("let x = true; while 42 { \"hi\" }");
    let tags: Vec<Tag> = tokens.iter().map(|t| t.tag).collect();
    assert_eq!(
        tags,
        vec![
            Tag::Let,
            Tag::Ident,
            Tag::Equal,
            Tag::Bool,
            Tag::Semicolon,
            Tag::While,
            Tag::Number,
            Tag::LBrace,
            Tag::Str,
            Tag::RBrace,
        ]
    );
    assert_eq!(tokens[6].value, "42");
    assert_eq!(tokens[8].value, "\"hi\"");
}

#[test]
fn counts_lines() {
    let tokens = lex_all("a\nb\n\nc");
    assert_eq!(tokens[0].line, 1);
    assert_eq!(tokens[1].line, 2);
    assert_eq!(tokens[2].line, 4);
}

#[test]
fn unknown_characters_become_invalid_tokens() {
    let tokens = lex_all("a @ b");
    assert_eq!(tokens[1].tag, Tag::Invalid);
    assert_eq!(tokens[1].value, "@");
    assert!(!tokens[1].is_empty());
}

#[test]
fn string_validation() {
    let ok = Token::new(Tag::Str, "\"hello\"".to_string(), 0, 1);
    assert_eq!(Lexer::validate_string(&ok), Ok(()));

    let escaped = Token::new(Tag::Str, "\"a\\\"b\\\\c\"".to_string(), 0, 1);
    assert_eq!(Lexer::validate_string(&escaped), Ok(()));

    let unclosed = Token::new(Tag::Str, "\"oops".to_string(), 0, 1);
    assert_eq!(Lexer::validate_string(&unclosed), Err(StringError::UnClosedDelimeter));

    let bad_escape = Token::new(Tag::Str, "\"a\\x\"".to_string(), 0, 1);
    assert_eq!(
        Lexer::validate_string(&bad_escape),
        Err(StringError::InvalidEscape { loc: 2 })
    );
}

#[test]
fn string_lexing_keeps_escapes_and_lines() {
    let tokens = lex_all("\"a\\\"b\" x");
    assert_eq!(tokens[0].tag, Tag::Str);
    assert_eq!(tokens[0].value, "\"a\\\"b\"");
    assert_eq!(tokens[1].value, "x");

    let tokens = lex_all("\"two\nlines\" y");
    assert_eq!(tokens[1].line, 2);
}

#[test]
fn empty_token_sentinel() {
    let empty = Token::empty();
    assert!(empty.is_empty());
    assert_eq!(empty.tag, Tag::Invalid);
    assert_eq!(empty.value, "");
    let real = Token::new(Tag::Ident, "x".to_string(), 0, 1);
    assert!(!real.is_empty());
    let copy = real.dup();
    assert_eq!(copy, real);
}

#[test]
fn locations_from_tokens() {
    let tok = Token::new(Tag::Ident, "abc".to_string(), 7, 3);
    let loc = Loc::from_token(&tok);
    assert_eq!(loc, Loc { start: 7, len: 3, line: 3 });
    assert_eq!(Loc::new(1, 2, 3), Loc { start: 1, len: 2, line: 3 });
    let span = Span::new(4, 9);
    assert_eq!(span.start, 4);
    assert_eq!(span.len, 9);
}
