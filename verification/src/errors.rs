use vstd::prelude::*;

use crate::token::{Tag, Token};

verus! {

/// The user-facing diagnostic taxonomy. Each variant is a data value
/// recorded with a source location; none of them aborts parsing.
#[derive(Debug, PartialEq, Eq, Structural, Clone, Copy)]
pub enum ParseErrorKind {
    ExpectedSemi,
    ExpectedLBrace,
    ExpectedBlock,
    UnexpectedEOF,
    ExpectedRBrace,

    /// A specific token tag was required and absent.
    Expected(Tag),

    // Import related errors
    MalformedImportPath,
    MissingImportDelimeter,

    // Struct related errors
    MissingFieldDelimeter,

    // Expr related errors
    ExpectedExpr,
    ExpectedOperator,
    BlockExprDisallowed,

    ExpectedArrayDelimeter,

    ExpectedIfOrBlock,

    ExpectedExprOrSemi,

    ExpectedFunctionParameters,
    ParamIncomplete,
    ExpectedColon,
    ExpectedReturnType,

    ExpectedVarDeclSeparator,

    ExpectedType,
}

/// A source location: character offset, length and line number.
#[derive(Debug, PartialEq, Eq, Structural, Clone, Copy)]
pub struct Loc {
    pub start: u32,
    pub len: u32,
    pub line: u32,
}

impl Loc {
    pub fn new(start: u32, len: u32, line: u32) -> (l: Loc)
        ensures
            l == (Loc { start, len, line }),
    {
        Loc { start, len, line }
    }

    /// The location covered by a token's text.
    pub fn from_token(token: &Token) -> (l: Loc)
        requires
            token.value@.len() <= u32::MAX,
        ensures
            l == (Loc { start: token.pos, len: token.value@.len() as u32, line: token.line }),
    {
        let len = token.value.as_str().unicode_len();
        Loc::new(token.pos, len as u32, token.line)
    }
}

/// One recorded diagnostic: what went wrong and where.
#[derive(Debug, PartialEq, Eq, Structural, Clone, Copy)]
pub struct ParseError {
    pub kind: ParseErrorKind,
    pub location: Loc,
}

/// The internal failure severities that govern propagation
/// (not diagnosis): how far a failed construct's blast radius reaches.
#[derive(Debug, PartialEq, Eq, Structural, Clone, Copy)]
pub enum ParsingError {
    /// Parsing as a whole must stop.
    Fatal,
    /// The current construct cannot be completed; the caller must
    /// synchronize before resuming.
    Failed,
    /// One list element was dropped; list parsing continues untouched.
    CouldRecover,
    /// One list element is unsalvageable; the entire list is abandoned.
    Terminal,
}

} // verus!
