use vstd::prelude::*;

verus! {

/// Tags classifying each token the scanner produces.
///
/// `Str` marks a string literal and `KwFn` the `fn` keyword.
#[derive(PartialEq, Eq, Structural, Debug, Clone, Copy)]
pub enum Tag {
    // Operators
    Plus,
    PlusEqual,
    Minus,
    MinusEqual,
    Slash,
    SlashEqual,
    Asterisk,
    AsteriskEqual,

    Dot,
    DotDot,
    Bang,
    BangEqual,
    Equal,
    EqualEqual,
    Greater,
    GreaterEqual,
    Less,
    LessEqual,

    // Meta tokens
    LParen,
    RParen,
    LBrace,
    RBrace,
    LBracket,
    RBracket,
    Semicolon,
    Colon,
    Comma,
    Arrow,

    // Literals
    Ident,
    Str,
    Bool,
    Number,

    // Keywords
    KwFn,
    If,
    Else,
    Return,
    While,
    For,
    Let,
    Break,
    Continue,
    Module,
    Struct,
    Enum,
    Import,
    Type,
    Const,

    UnexpectedEof,
    Invalid,
}

/// A half-open region of the source, counted in characters.
#[derive(PartialEq, Eq, Structural, Debug, Clone, Copy)]
pub struct Span {
    pub start: u32,
    pub len: u32,
}

impl Span {
    pub fn new(start: u32, len: u32) -> (s: Span)
        ensures
            s.start == start,
            s.len == len,
    {
        Span { start, len }
    }
}

/// The mathematical value of a token: its tag, character position,
/// text (as a sequence of characters) and line number.
pub ghost struct SpecToken {
    pub tag: Tag,
    pub pos: u32,
    pub value: Seq<char>,
    pub line: u32,
}

/// One token of the source: a tag, the character offset where it starts,
/// the text it covers, and the line it starts on.
#[derive(Debug, Clone, PartialEq)]
pub struct Token {
    pub tag: Tag,
    pub pos: u32,
    pub value: String,
    pub line: u32,
}

impl View for Token {
    type V = SpecToken;

    open spec fn view(&self) -> SpecToken {
        SpecToken { tag: self.tag, pos: self.pos, value: self.value@, line: self.line }
    }
}

impl Token {
    pub fn new(tag: Tag, value: String, pos: u32, line: u32) -> (t: Token)
        ensures
            t.tag == tag,
            t.value@ == value@,
            t.pos == pos,
            t.line == line,
    {
        Token { tag, value, pos, line }
    }

    /// The distinguished token standing for "expected but absent".
    pub fn empty() -> (t: Token)
        ensures
            t@ == spec_empty_token(),
            t.is_empty(),
    {
        Token { tag: Tag::Invalid, value: String::new(), pos: u32::MAX, line: u32::MAX }
    }

    pub open spec fn spec_is_empty(&self) -> bool {
        self.tag == Tag::Invalid && self.pos == u32::MAX
    }

    /// Whether this is the distinguished empty token.
    #[verifier::when_used_as_spec(spec_is_empty)]
    pub fn is_empty(&self) -> (b: bool)
        ensures
            b == self.spec_is_empty(),
    {
        self.tag == Tag::Invalid && self.pos == u32::MAX
    }

    /// An owned copy; the fields of the copy agree with the original.
    pub fn dup(&self) -> (t: Token)
        ensures
            t@ == self@,
    {
        Token { tag: self.tag, value: self.value.clone(), pos: self.pos, line: self.line }
    }
}

/// The value of the empty token.
pub open spec fn spec_empty_token() -> SpecToken {
    SpecToken { tag: Tag::Invalid, pos: u32::MAX, value: Seq::empty(), line: u32::MAX }
}

} // verus!
