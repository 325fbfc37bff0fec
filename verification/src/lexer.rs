use vstd::prelude::*;

use crate::token::{Tag, Token};

verus! {

/// Whether a character can start or continue an identifier: an ASCII
/// letter or an underscore.
pub open spec fn spec_is_ident_char(c: char) -> bool {
    (97 <= c as u32 && c as u32 <= 122) || (65 <= c as u32 && c as u32 <= 90) || c as u32 == 95
}

fn is_ident_char(c: char) -> (r: bool)
    ensures
        r == spec_is_ident_char(c),
{
    let u = c as u32;
    (97 <= u && u <= 122) || (65 <= u && u <= 90) || u == 95
}

/// Whether a character is an ASCII decimal digit.
pub open spec fn spec_is_digit(c: char) -> bool {
    48 <= c as u32 && c as u32 <= 57
}

fn is_digit(c: char) -> (r: bool)
    ensures
        r == spec_is_digit(c),
{
    let u = c as u32;
    48 <= u && u <= 57
}

/// Whether a character is horizontal or vertical whitespace.
pub open spec fn spec_is_space(c: char) -> bool {
    c == ' ' || c == '\t' || c == '\r' || c == '\n'
}

fn is_space(c: char) -> (r: bool)
    ensures
        r == spec_is_space(c),
{
    c == ' ' || c == '\t' || c == '\r' || c == '\n'
}

/// Character-for-character string equality.
pub fn str_eq(a: &str, b: &str) -> (r: bool)
    ensures
        r == (a@ == b@),
{
    let n = a.unicode_len();
    let m = b.unicode_len();
    if n != m {
        proof {
            assert(a@ != b@) by {
                assert(a@.len() != b@.len());
            }
        }
        return false;
    }
    let mut i: usize = 0;
    while i < n
        invariant
            n == a@.len(),
            n == b@.len(),
            i <= n,
            forall|j: int| 0 <= j < i ==> a@[j] == b@[j],
        decreases n - i,
    {
        if a.get_char(i) != b.get_char(i) {
            proof {
                assert(a@[i as int] != b@[i as int]);
            }
            return false;
        }
        i += 1;
    }
    proof {
        assert(a@ =~= b@);
    }
    true
}

/// The keyword table: the tag a lexed identifier ends up with.
pub open spec fn spec_keyword_tag(s: Seq<char>) -> Tag {
    if s == "fn"@ {
        Tag::KwFn
    } else if s == "if"@ {
        Tag::If
    } else if s == "else"@ {
        Tag::Else
    } else if s == "return"@ {
        Tag::Return
    } else if s == "while"@ {
        Tag::While
    } else if s == "for"@ {
        Tag::For
    } else if s == "let"@ {
        Tag::Let
    } else if s == "break"@ {
        Tag::Break
    } else if s == "continue"@ {
        Tag::Continue
    } else if s == "module"@ {
        Tag::Module
    } else if s == "struct"@ {
        Tag::Struct
    } else if s == "enum"@ {
        Tag::Enum
    } else if s == "import"@ {
        Tag::Import
    } else if s == "type"@ {
        Tag::Type
    } else if s == "const"@ {
        Tag::Const
    } else if s == "true"@ || s == "false"@ {
        Tag::Bool
    } else {
        Tag::Ident
    }
}

/// The tag a token must carry, judged from its own first character:
/// a digit opens a number, a letter or underscore an identifier or
/// keyword, a quote a string literal; each punctuation character maps
/// to its tag or, for the two-character operators, one of its two;
/// anything else is an invalid token.
pub open spec fn spec_token_class_ok(t: Token) -> bool {
    t.value@.len() > 0 && {
        let c = t.value@[0];
        if spec_is_digit(c) {
            t.tag == Tag::Number
        } else if spec_is_ident_char(c) {
            t.tag == spec_keyword_tag(t.value@)
        } else if c == '"' {
            t.tag == Tag::Str
        } else if c == '+' {
            t.tag == Tag::Plus || t.tag == Tag::PlusEqual
        } else if c == '-' {
            t.tag == Tag::Minus || t.tag == Tag::MinusEqual || t.tag == Tag::Arrow
        } else if c == '/' {
            t.tag == Tag::Slash || t.tag == Tag::SlashEqual
        } else if c == '*' {
            t.tag == Tag::Asterisk || t.tag == Tag::AsteriskEqual
        } else if c == '!' {
            t.tag == Tag::Bang || t.tag == Tag::BangEqual
        } else if c == '=' {
            t.tag == Tag::Equal || t.tag == Tag::EqualEqual
        } else if c == '>' {
            t.tag == Tag::Greater || t.tag == Tag::GreaterEqual
        } else if c == '<' {
            t.tag == Tag::Less || t.tag == Tag::LessEqual
        } else if c == '.' {
            t.tag == Tag::Dot
        } else if c == ',' {
            t.tag == Tag::Comma
        } else if c == ';' {
            t.tag == Tag::Semicolon
        } else if c == ':' {
            t.tag == Tag::Colon
        } else if c == '[' {
            t.tag == Tag::LBracket
        } else if c == ']' {
            t.tag == Tag::RBracket
        } else if c == '{' {
            t.tag == Tag::LBrace
        } else if c == '}' {
            t.tag == Tag::RBrace
        } else if c == '(' {
            t.tag == Tag::LParen
        } else if c == ')' {
            t.tag == Tag::RParen
        } else {
            t.tag == Tag::Invalid
        }
    }
}

/// A scanner that turns source text into a stream of tokens, one
/// token of lookahead at a time.
pub struct Lexer<'s> {
    /// The source text being scanned.
    pub src: &'s str,
    /// The character count of `src`.
    pub n: usize,
    /// The index of the next unconsumed character.
    pub i: usize,
    /// The line the next character sits on, starting at 1.
    pub line: u32,
}

impl<'s> Lexer<'s> {
    /// The scanner's internal consistency: the cached length is the
    /// source's, the cursor never passes the end, positions fit in the
    /// token fields, and the line counter cannot outrun the cursor.
    pub open spec fn wf(&self) -> bool {
        &&& self.n == self.src@.len()
        &&& self.i <= self.n
        &&& self.n < u32::MAX
        &&& self.line <= 1 + self.i
        &&& 1 <= self.line
    }

    /// What every token the scanner hands out satisfies: it is not the
    /// empty sentinel and its text is the region of the source that its
    /// position names.
    pub open spec fn token_from_src(&self, t: Token) -> bool {
        &&& !t.spec_is_empty()
        &&& t.value@.len() <= self.n
        &&& t.pos + t.value@.len() <= self.n
        &&& t.value@ == self.src@.subrange(t.pos as int, t.pos + t.value@.len())
    }

    /// Creates a scanner over a source string.
    pub fn from(src: &'s str) -> (l: Lexer<'s>)
        requires
            src@.len() < u32::MAX,
        ensures
            l.wf(),
            l.src == src,
            l.i == 0,
            l.line == 1,
    {
        let n = src.unicode_len();
        Lexer { src, n, i: 0, line: 1 }
    }

    /// Consumes the next character of the source.
    pub fn advance(&mut self)
        requires
            old(self).wf(),
            old(self).i < old(self).n,
        ensures
            final(self).wf(),
            final(self).src == old(self).src,
            final(self).i == old(self).i + 1,
            final(self).line == old(self).line,
    {
        self.i = self.i + 1;
    }

    /// Returns the next character of the source without consuming it.
    pub fn peek(&self) -> (r: Option<char>)
        requires
            self.wf(),
        ensures
            r is Some <==> self.i < self.n,
            r is Some ==> r->Some_0 == self.src@[self.i as int],
    {
        if self.i < self.n {
            Some(self.src.get_char(self.i))
        } else {
            None
        }
    }

    /// Whether the whole source has been consumed.
    pub fn done(&self) -> (r: bool)
        requires
            self.wf(),
        ensures
            r == (self.i >= self.n),
    {
        self.i >= self.n
    }

    /// Builds the token covering characters `start..self.i`.
    fn token_here(&self, tag: Tag, start: usize, line: u32) -> (t: Token)
        requires
            self.wf(),
            start < self.i,
            self.i <= self.n,
        ensures
            t.tag == tag,
            t.pos == start,
            t.line == line,
            t.value@ == self.src@.subrange(start as int, self.i as int),
            self.token_from_src(t),
    {
        let text = self.src.substring_char(start, self.i).to_owned();
        Token::new(tag, text, start as u32, line)
    }

    /// Scans a one- or two-character operator: if the character after
    /// the current one equals `next_char`, the token is `matched_tag`
    /// over both characters, otherwise `tag` over one.
    pub fn dual_op(&mut self, next_char: char, tag: Tag, matched_tag: Tag) -> (t: Token)
        requires
            old(self).wf(),
            old(self).i < old(self).n,
        ensures
            final(self).wf(),
            final(self).src == old(self).src,
            final(self).line == old(self).line,
            old(self).i < final(self).i <= final(self).n,
            final(self).token_from_src(t),
            t.pos == old(self).i,
            t.tag == tag || t.tag == matched_tag,
            t.value@.len() > 0,
            final(self).i == old(self).i + t.value@.len(),
            t.tag == matched_tag <==> (tag != matched_tag ==> (old(self).i + 1 < old(self).n
                && old(self).src@[old(self).i + 1] == next_char)),
            (old(self).i + 1 < old(self).n && old(self).src@[old(self).i + 1] == next_char)
                ==> t.value@.len() == 2,
            !(old(self).i + 1 < old(self).n && old(self).src@[old(self).i + 1] == next_char)
                ==> t.value@.len() == 1,
    {
        let start = self.i;
        self.advance();
        let matched = match self.peek() {
            Some(c) => c == next_char,
            None => false,
        };
        if matched {
            self.advance();
            self.token_here(matched_tag, start, self.line)
        } else {
            self.token_here(tag, start, self.line)
        }
    }

    /// Scans a string literal, from its opening quote up to and
    /// including its closing quote (or to the end of the source when
    /// the literal is never closed). `\\` and `\"` escapes keep their
    /// following character from closing the literal.
    pub fn lex_string(&mut self) -> (t: Token)
        requires
            old(self).wf(),
            old(self).i < old(self).n,
        ensures
            final(self).wf(),
            final(self).src == old(self).src,
            old(self).i < final(self).i <= final(self).n,
            final(self).token_from_src(t),
            t.pos == old(self).i,
            t.tag == Tag::Str,
            t.value@.len() > 0,
            final(self).i == old(self).i + t.value@.len(),
    {
        let start = self.i;
        let line = self.line;
        self.advance();  // the opening quote
        loop
            invariant
                self.wf(),
                self.src == old(self).src,
                start < self.i <= self.n,
                self.line >= line,
            decreases self.n - self.i,
        {
            match self.peek() {
                None => { break },
                Some(c) => {
                    if c == '"' {
                        self.advance();
                        break ;
                    } else if c == '\n' {
                        self.advance();
                        self.line = self.line + 1;
                    } else if c == '\\' {
                        self.advance();
                        let escaped = match self.peek() {
                            Some(e) => e == '\\' || e == '"',
                            None => false,
                        };
                        if escaped {
                            self.advance();
                        }
                    } else {
                        self.advance();
                    }
                },
            }
        }
        self.token_here(Tag::Str, start, line)
    }

    /// Scans a run of decimal digits.
    pub fn lex_number(&mut self) -> (t: Token)
        requires
            old(self).wf(),
            old(self).i < old(self).n,
        ensures
            final(self).wf(),
            final(self).src == old(self).src,
            final(self).line == old(self).line,
            old(self).i < final(self).i <= final(self).n,
            final(self).token_from_src(t),
            t.pos == old(self).i,
            t.tag == Tag::Number,
            t.value@.len() > 0,
            final(self).i == old(self).i + t.value@.len(),
            forall|k: int| 1 <= k < t.value@.len() ==> spec_is_digit(#[trigger] t.value@[k]),
            final(self).i < final(self).n ==> !spec_is_digit(
                final(self).src@[final(self).i as int],
            ),
    {
        let start = self.i;
        self.advance();
        loop
            invariant
                self.wf(),
                self.src == old(self).src,
                self.line == old(self).line,
                start < self.i <= self.n,
                forall|j: int| start < j < self.i ==> spec_is_digit(#[trigger] self.src@[j]),
            ensures
                self.i < self.n ==> !spec_is_digit(self.src@[self.i as int]),
            decreases self.n - self.i,
        {
            let go = match self.peek() {
                Some(c) => is_digit(c),
                None => false,
            };
            if go {
                self.advance();
            } else {
                break ;
            }
        }
        self.token_here(Tag::Number, start, self.line)
    }

    /// Scans an identifier or keyword: a run of letters and
    /// underscores, classified by the keyword table.
    pub fn lex_ident(&mut self) -> (t: Token)
        requires
            old(self).wf(),
            old(self).i < old(self).n,
        ensures
            final(self).wf(),
            final(self).src == old(self).src,
            final(self).line == old(self).line,
            old(self).i < final(self).i <= final(self).n,
            final(self).token_from_src(t),
            t.pos == old(self).i,
            t.tag == spec_keyword_tag(t.value@),
            t.value@.len() > 0,
            final(self).i == old(self).i + t.value@.len(),
            forall|k: int| 1 <= k < t.value@.len() ==> spec_is_ident_char(#[trigger] t.value@[k]),
            final(self).i < final(self).n ==> !spec_is_ident_char(
                final(self).src@[final(self).i as int],
            ),
    {
        let start = self.i;
        self.advance();
        loop
            invariant
                self.wf(),
                self.src == old(self).src,
                self.line == old(self).line,
                start < self.i <= self.n,
                forall|j: int| start < j < self.i ==> spec_is_ident_char(#[trigger] self.src@[j]),
            ensures
                self.i < self.n ==> !spec_is_ident_char(self.src@[self.i as int]),
            decreases self.n - self.i,
        {
            let go = match self.peek() {
                Some(c) => is_ident_char(c),
                None => false,
            };
            if go {
                self.advance();
            } else {
                break ;
            }
        }
        let text = self.src.substring_char(start, self.i).to_owned();
        let tag = Self::match_keyword(text.as_str());
        Token::new(tag, text, start as u32, self.line)
    }

    /// Maps an identifier's text to its keyword tag, or `Ident` when
    /// it is no keyword.
    pub fn match_keyword(ident: &str) -> (tag: Tag)
        ensures
            tag == spec_keyword_tag(ident@),
    {
        if str_eq(ident, "fn") {
            Tag::KwFn
        } else if str_eq(ident, "if") {
            Tag::If
        } else if str_eq(ident, "else") {
            Tag::Else
        } else if str_eq(ident, "return") {
            Tag::Return
        } else if str_eq(ident, "while") {
            Tag::While
        } else if str_eq(ident, "for") {
            Tag::For
        } else if str_eq(ident, "let") {
            Tag::Let
        } else if str_eq(ident, "break") {
            Tag::Break
        } else if str_eq(ident, "continue") {
            Tag::Continue
        } else if str_eq(ident, "module") {
            Tag::Module
        } else if str_eq(ident, "struct") {
            Tag::Struct
        } else if str_eq(ident, "enum") {
            Tag::Enum
        } else if str_eq(ident, "import") {
            Tag::Import
        } else if str_eq(ident, "type") {
            Tag::Type
        } else if str_eq(ident, "const") {
            Tag::Const
        } else if str_eq(ident, "true") {
            Tag::Bool
        } else if str_eq(ident, "false") {
            Tag::Bool
        } else {
            Tag::Ident
        }
    }

    /// Consumes whitespace, counting lines.
    pub fn skip_whitespace(&mut self)
        requires
            old(self).wf(),
        ensures
            final(self).wf(),
            final(self).src == old(self).src,
            old(self).i <= final(self).i <= final(self).n,
            final(self).i < final(self).n ==> !spec_is_space(final(self).src@[final(self).i as int]),
            forall|j: int|
                old(self).i <= j < final(self).i ==> spec_is_space(
                    #[trigger] final(self).src@[j],
                ),
    {
        loop
            invariant
                self.wf(),
                self.src == old(self).src,
                old(self).i <= self.i <= self.n,
                forall|j: int| old(self).i <= j < self.i ==> spec_is_space(#[trigger] self.src@[j]),
            decreases self.n - self.i,
        {
            let c = match self.peek() {
                Some(c) => c,
                None => { return ; },
            };
            if is_space(c) {
                self.advance();
                if c == '\n' {
                    self.line = self.line + 1;
                }
            } else {
                return ;
            }
        }
    }

    /// Produces the next token, or `None` at the end of the source.
    /// Characters the grammar has no use for come back as `Invalid`
    /// tokens rather than stopping the scan. Each token's tag agrees
    /// with the classification of its first character.
    pub fn next_token(&mut self) -> (r: Option<Token>)
        requires
            old(self).wf(),
        ensures
            final(self).wf(),
            final(self).src == old(self).src,
            old(self).i <= final(self).i <= final(self).n,
            r is None ==> final(self).i == final(self).n,
            r is Some ==> final(self).i > old(self).i,
            r is Some ==> final(self).token_from_src(r->Some_0),
            r is Some ==> spec_token_class_ok(r->Some_0),
            r is Some ==> old(self).i <= r->Some_0.pos && final(self).i == r->Some_0.pos
                + r->Some_0.value@.len(),
            r is Some ==> forall|j: int|
                old(self).i <= j < r->Some_0.pos ==> spec_is_space(#[trigger] final(self).src@[j]),
            r is None ==> forall|j: int|
                old(self).i <= j < final(self).i ==> spec_is_space(#[trigger] final(self).src@[j]),
    {
        self.skip_whitespace();

        let c = match self.peek() {
            Some(c) => c,
            None => { return None },
        };
        let start = self.i;

        let tok = if c == '+' {
            self.dual_op('=', Tag::Plus, Tag::PlusEqual)
        } else if c == '-' {
            // `-` may end `-=`, `->`, or stand alone.
            self.advance();
            let follow = self.peek();
            if matches!(follow, Some('=')) {
                self.advance();
                self.token_here(Tag::MinusEqual, start, self.line)
            } else if matches!(follow, Some('>')) {
                self.advance();
                self.token_here(Tag::Arrow, start, self.line)
            } else {
                self.token_here(Tag::Minus, start, self.line)
            }
        } else if c == '/' {
            self.dual_op('=', Tag::Slash, Tag::SlashEqual)
        } else if c == '*' {
            self.dual_op('=', Tag::Asterisk, Tag::AsteriskEqual)
        } else if c == '.' {
            self.advance();
            self.token_here(Tag::Dot, start, self.line)
        } else if c == ',' {
            self.advance();
            self.token_here(Tag::Comma, start, self.line)
        } else if c == ';' {
            self.advance();
            self.token_here(Tag::Semicolon, start, self.line)
        } else if c == ':' {
            self.advance();
            self.token_here(Tag::Colon, start, self.line)
        } else if c == '!' {
            self.dual_op('=', Tag::Bang, Tag::BangEqual)
        } else if c == '=' {
            self.dual_op('=', Tag::Equal, Tag::EqualEqual)
        } else if c == '>' {
            self.dual_op('=', Tag::Greater, Tag::GreaterEqual)
        } else if c == '<' {
            self.dual_op('=', Tag::Less, Tag::LessEqual)
        } else if c == '[' {
            self.advance();
            self.token_here(Tag::LBracket, start, self.line)
        } else if c == ']' {
            self.advance();
            self.token_here(Tag::RBracket, start, self.line)
        } else if c == '{' {
            self.advance();
            self.token_here(Tag::LBrace, start, self.line)
        } else if c == '}' {
            self.advance();
            self.token_here(Tag::RBrace, start, self.line)
        } else if c == '(' {
            self.advance();
            self.token_here(Tag::LParen, start, self.line)
        } else if c == ')' {
            self.advance();
            self.token_here(Tag::RParen, start, self.line)
        } else if c == '"' {
            self.lex_string()
        } else if is_digit(c) {
            self.lex_number()
        } else if is_ident_char(c) {
            self.lex_ident()
        } else {
            self.advance();
            self.token_here(Tag::Invalid, start, self.line)
        };
        proof {
            assert(tok.value@.len() > 0);
            assert(tok.value@[0] == self.src@[start as int]);
        }
        Some(tok)
    }
}

/// Why a string literal token is invalid.
#[derive(Debug, PartialEq, Eq, Structural, Clone, Copy)]
pub enum StringError {
    /// The literal runs to the end of its text without a closing quote.
    UnClosedDelimeter,
    /// A backslash is followed by something other than `\` or `"`;
    /// `loc` is the character index of the backslash within the token.
    InvalidEscape { loc: usize },
}

/// The verdict on a string literal's text from position `j` on:
/// closed by an unescaped quote, never closed, or holding a bad escape.
pub open spec fn spec_scan_lit(s: Seq<char>, j: int) -> Result<(), StringError>
    decreases s.len() - j,
    when 0 <= j
{
    if j >= s.len() {
        Err(StringError::UnClosedDelimeter)
    } else if s[j] == '"' {
        Ok(())
    } else if s[j] == '\\' {
        if j + 1 < s.len() && (s[j + 1] == '\\' || s[j + 1] == '"') {
            spec_scan_lit(s, j + 2)
        } else {
            Err(StringError::InvalidEscape { loc: j as usize })
        }
    } else {
        spec_scan_lit(s, j + 1)
    }
}

/// The verdict on a whole string literal token's text.
pub open spec fn spec_validate_string(s: Seq<char>) -> Result<(), StringError> {
    if s.len() < 1 || s[0] != '"' {
        Err(StringError::UnClosedDelimeter)
    } else {
        spec_scan_lit(s, 1)
    }
}

impl<'s> Lexer<'s> {
    /// Determines whether a string literal token is well formed:
    /// closed by an unescaped quote and free of invalid escapes.
    pub fn validate_string(token: &Token) -> (r: Result<(), StringError>)
        requires
            token.tag == Tag::Str,
        ensures
            r == spec_validate_string(token.value@),
    {
        let s = token.value.as_str();
        let n = s.unicode_len();
        if n < 1 || s.get_char(0) != '"' {
            return Err(StringError::UnClosedDelimeter);
        }
        let mut j: usize = 1;
        loop
            invariant
                n == s@.len(),
                1 <= j,
                spec_validate_string(token.value@) == spec_scan_lit(s@, j as int),
                s@ == token.value@,
            decreases n - j,
        {
            if j >= n {
                return Err(StringError::UnClosedDelimeter);
            }
            let c = s.get_char(j);
            if c == '"' {
                return Ok(());
            } else if c == '\\' {
                if j + 1 < n {
                    let e = s.get_char(j + 1);
                    if e == '\\' || e == '"' {
                        j = j + 2;
                    } else {
                        return Err(StringError::InvalidEscape { loc: j });
                    }
                } else {
                    return Err(StringError::InvalidEscape { loc: j });
                }
            } else {
                j = j + 1;
            }
        }
    }
}

} // verus!
