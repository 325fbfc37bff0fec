use vstd::prelude::*;

use crate::errors::{Loc, ParseError, ParseErrorKind};
use crate::lexer::Lexer;
use crate::token::{Tag, Token};

verus! {

/// Every token the parser works over: a real token (never the empty
/// sentinel) whose text length fits the location fields.
pub open spec fn token_ok(t: Token) -> bool {
    &&& !t.spec_is_empty()
    &&& t.value@.len() <= u32::MAX
}

/// A token whose text is exactly the region of the source that its
/// position names.
pub open spec fn token_from(src: Seq<char>, t: Token) -> bool {
    &&& t.pos + t.value@.len() <= src.len()
    &&& t.value@ == src.subrange(t.pos as int, t.pos + t.value@.len())
}

/// The position just past a token's text.
pub open spec fn token_end(t: Token) -> int {
    t.pos + t.value@.len()
}

/// The region `[lo, hi)` of the source holds whitespace only.
pub open spec fn ws_only(src: Seq<char>, lo: int, hi: int) -> bool {
    forall|j: int| lo <= j < hi ==> crate::lexer::spec_is_space(#[trigger] src[j])
}

/// The token stream tiles the source: every token's text is the
/// region its position names and its tag agrees with the
/// classification of its first character; consecutive tokens are
/// separated by whitespace only, as are the stream's leading and
/// trailing gaps. Together with the scanner's maximal-munch clauses
/// this pins the stream down.
pub open spec fn tokens_tile(src: Seq<char>, toks: Seq<Token>) -> bool {
    &&& forall|i: int|
        0 <= i < toks.len() ==> token_from(src, #[trigger] toks[i])
            && crate::lexer::spec_token_class_ok(toks[i])
    &&& toks.len() > 0 ==> ws_only(src, 0, toks[0].pos as int)
    &&& forall|i: int|
        0 <= i < toks.len() - 1 ==> token_end(#[trigger] toks[i]) <= toks[i + 1].pos && ws_only(
            src,
            token_end(toks[i]),
            toks[i + 1].pos as int,
        )
    &&& toks.len() > 0 ==> ws_only(src, token_end(toks[toks.len() - 1]), src.len() as int)
    &&& toks.len() == 0 ==> ws_only(src, 0, src.len() as int)
}

/// The error-tolerant recursive-descent parser: a token list with one
/// cursor, and the ordered diagnostics accumulated so far.
pub struct Parser {
    /// The token stream, produced up front by the scanner.
    pub tokens: Vec<Token>,
    /// The index of the next unconsumed token.
    pub pos: usize,
    /// The ordered list of diagnostics reported so far.
    pub errors: Vec<ParseError>,
}

impl Parser {
    /// Internal consistency: the cursor never passes the end and every
    /// token in the stream is a real one.
    pub open spec fn wf(&self) -> bool {
        &&& self.pos <= self.tokens@.len()
        &&& forall|i: int| 0 <= i < self.tokens@.len() ==> token_ok(#[trigger] self.tokens@[i])
    }

    /// The token under the cursor.
    pub open spec fn cur(&self) -> Token {
        self.tokens@[self.pos as int]
    }

    /// Whether a token is under the cursor.
    pub open spec fn has_cur(&self) -> bool {
        self.pos < self.tokens@.len()
    }

    /// How every parsing step relates to the state it started from:
    /// the token stream is untouched, the cursor only moves forward,
    /// and earlier diagnostics are kept, in order, as a prefix.
    pub open spec fn advanced_from(&self, pre: &Parser) -> bool {
        &&& self.wf()
        &&& self.tokens == pre.tokens
        &&& pre.pos <= self.pos
        &&& pre.errors@.is_prefix_of(self.errors@)
    }

    /// Where the next diagnostic of the given length would point: at
    /// the token under the cursor, or past the last token at the end
    /// of input.
    pub open spec fn spec_loc(&self, len: u32) -> Loc {
        if self.pos < self.tokens@.len() {
            Loc { start: self.cur().pos, len, line: self.cur().line }
        } else if self.tokens@.len() > 0 {
            Loc {
                start: self.tokens@[self.tokens@.len() - 1].pos,
                len,
                line: self.tokens@[self.tokens@.len() - 1].line,
            }
        } else {
            Loc { start: 0, len, line: 1 }
        }
    }

    /// Constructs a parser by scanning the whole source up front. The
    /// token stream tiles the source: each token's text is exactly the
    /// region its position names, tags agree with the classification
    /// of their first characters, and the gaps between tokens hold
    /// whitespace only.
    #[verifier::rlimit(60)]
    pub fn new(source: &str) -> (p: Parser)
        requires
            source@.len() < u32::MAX,
        ensures
            p.wf(),
            p.pos == 0,
            p.errors@.len() == 0,
            tokens_tile(source@, p.tokens@),
    {
        let mut lexer = Lexer::from(source);
        let mut tokens: Vec<Token> = Vec::new();
        loop
            invariant_except_break
                tokens@.len() > 0 ==> lexer.i == token_end(tokens@[tokens@.len() - 1]),
                tokens@.len() == 0 ==> ws_only(source@, 0, lexer.i as int),
            invariant
                lexer.wf(),
                lexer.src == source,
                forall|i: int| 0 <= i < tokens@.len() ==> token_ok(#[trigger] tokens@[i]),
                forall|i: int|
                    0 <= i < tokens@.len() ==> token_from(source@, #[trigger] tokens@[i])
                        && crate::lexer::spec_token_class_ok(tokens@[i]),
                tokens@.len() > 0 ==> ws_only(source@, 0, tokens@[0].pos as int),
                forall|i: int|
                    0 <= i < tokens@.len() - 1 ==> token_end(#[trigger] tokens@[i]) <= tokens@[i
                        + 1].pos && ws_only(source@, token_end(tokens@[i]), tokens@[i + 1].pos as int),
            ensures
                tokens@.len() > 0 ==> ws_only(
                    source@,
                    token_end(tokens@[tokens@.len() - 1]),
                    source@.len() as int,
                ),
                tokens@.len() == 0 ==> ws_only(source@, 0, source@.len() as int),
            decreases lexer.n - lexer.i,
        {
            let ghost pre_toks = tokens@;
            let ghost pre_i = lexer.i as int;
            match lexer.next_token() {
                Some(tok) => {
                    let ghost gtok = tok;
                    tokens.push(tok);
                    proof {
                        assert(tokens@ == pre_toks.push(gtok));
                        assert(ws_only(source@, pre_i, gtok.pos as int));
                        if pre_toks.len() == 0 {
                            assert(ws_only(source@, 0, gtok.pos as int));
                        } else {
                            assert(token_end(pre_toks[pre_toks.len() - 1]) == pre_i);
                            assert(tokens@[tokens@.len() - 2] == pre_toks[pre_toks.len() - 1]);
                        }
                        assert(forall|i: int|
                            0 <= i < pre_toks.len() ==> tokens@[i] == #[trigger] pre_toks[i]);
                        assert(lexer.i == token_end(gtok));
                    }
                },
                None => { break },
            }
        }
        proof {
            assert(tokens_tile(source@, tokens@));
        }
        Parser { tokens, pos: 0, errors: Vec::new() }
    }

    /// Appends one diagnostic; parsing never stops here.
    pub fn add_error(&mut self, kind: ParseErrorKind, loc: Loc)
        requires
            old(self).wf(),
        ensures
            final(self).wf(),
            final(self).tokens == old(self).tokens,
            final(self).pos == old(self).pos,
            final(self).errors@ == old(self).errors@.push(ParseError { kind, location: loc }),
    {
        self.errors.push(ParseError { kind, location: loc });
    }

    /// The next token, without consuming it.
    pub fn peek(&self) -> (r: Option<&Token>)
        requires
            self.wf(),
        ensures
            r is Some <==> self.has_cur(),
            r is Some ==> *r->Some_0 == self.cur(),
    {
        if self.pos < self.tokens.len() {
            Some(&self.tokens[self.pos])
        } else {
            None
        }
    }

    /// Checks whether the next token is of the specified tag without
    /// consuming it.
    pub fn peek_is(&self, tag: Tag) -> (r: bool)
        requires
            self.wf(),
        ensures
            r == (self.has_cur() && self.cur().tag == tag),
    {
        match self.peek() {
            Some(tok) => tok.tag == tag,
            None => false,
        }
    }

    /// Consumes and returns the next token.
    pub fn next(&mut self) -> (r: Option<Token>)
        requires
            old(self).wf(),
        ensures
            final(self).advanced_from(old(self)),
            final(self).tokens == old(self).tokens,
            final(self).errors == old(self).errors,
            r is Some <==> old(self).has_cur(),
            r is Some ==> r->Some_0@ == old(self).cur()@ && final(self).pos == old(self).pos + 1,
            r is None ==> final(self).pos == old(self).pos,
    {
        if self.pos < self.tokens.len() {
            let t = self.tokens[self.pos].dup();
            self.pos = self.pos + 1;
            Some(t)
        } else {
            None
        }
    }

    /// Consumes the next token if the tag matches, otherwise does nothing.
    pub fn lazy_eat(&mut self, tag: Tag)
        requires
            old(self).wf(),
        ensures
            final(self).advanced_from(old(self)),
            final(self).errors == old(self).errors,
            old(self).has_cur() && old(self).cur().tag == tag ==> final(self).pos == old(self).pos
                + 1,
            !(old(self).has_cur() && old(self).cur().tag == tag) ==> final(self).pos == old(self).pos,
    {
        if self.peek_is(tag) {
            self.next();
        }
    }

    /// Consumes the next token exactly when its tag matches.
    pub fn eat_token(&mut self, token_tag: Tag) -> (r: Option<Token>)
        requires
            old(self).wf(),
        ensures
            final(self).advanced_from(old(self)),
            final(self).errors == old(self).errors,
            r is Some <==> (old(self).has_cur() && old(self).cur().tag == token_tag),
            r is Some ==> r->Some_0@ == old(self).cur()@ && final(self).pos == old(self).pos + 1,
            r is None ==> final(self).pos == old(self).pos,
    {
        if self.peek_is(token_tag) {
            self.next()
        } else {
            None
        }
    }

    /// Requires a token of the given tag: consumes and returns it when
    /// present; otherwise reports the given diagnostic at the given
    /// location and stands in the empty token.
    pub fn expect_token_loc(&mut self, token_tag: Tag, kind: ParseErrorKind, loc: Loc) -> (r:
        Token)
        requires
            old(self).wf(),
        ensures
            final(self).advanced_from(old(self)),
            old(self).has_cur() && old(self).cur().tag == token_tag ==> r@ == old(self).cur()@
                && final(self).pos == old(self).pos + 1 && final(self).errors == old(self).errors,
            !(old(self).has_cur() && old(self).cur().tag == token_tag) ==> r.spec_is_empty()
                && final(self).pos == old(self).pos && final(self).errors@ == old(self).errors@.push(ParseError { kind, location: loc }),
            r.spec_is_empty() <==> !(old(self).has_cur() && old(self).cur().tag == token_tag),
    {
        match self.eat_token(token_tag) {
            Some(tok) => tok,
            None => {
                self.add_error(kind, loc);
                Token::empty()
            },
        }
    }

    /// `expect_token_loc`, pointing the diagnostic at the cursor.
    pub fn expect_token_(&mut self, token_tag: Tag, kind: ParseErrorKind) -> (r: Token)
        requires
            old(self).wf(),
        ensures
            final(self).advanced_from(old(self)),
            old(self).has_cur() && old(self).cur().tag == token_tag ==> r@ == old(self).cur()@
                && final(self).pos == old(self).pos + 1 && final(self).errors == old(self).errors,
            !(old(self).has_cur() && old(self).cur().tag == token_tag) ==> r.spec_is_empty()
                && final(self).pos == old(self).pos && final(self).errors@ == old(self).errors@.push(ParseError { kind, location: old(self).spec_loc(1) }),
            r.spec_is_empty() <==> !(old(self).has_cur() && old(self).cur().tag == token_tag),
    {
        let loc = self.loc(1);
        self.expect_token_loc(token_tag, kind, loc)
    }

    /// `expect_token_`, reporting the generic expected-token-of-kind
    /// diagnostic.
    pub fn expect_token(&mut self, token_tag: Tag) -> (r: Token)
        requires
            old(self).wf(),
        ensures
            final(self).advanced_from(old(self)),
            old(self).has_cur() && old(self).cur().tag == token_tag ==> r@ == old(self).cur()@
                && final(self).pos == old(self).pos + 1 && final(self).errors == old(self).errors,
            !(old(self).has_cur() && old(self).cur().tag == token_tag) ==> r.spec_is_empty()
                && final(self).pos == old(self).pos && final(self).errors@ == old(self).errors@.push(
                ParseError {
                    kind: ParseErrorKind::Expected(token_tag),
                    location: old(self).spec_loc(1),
                },
            ),
            r.spec_is_empty() <==> !(old(self).has_cur() && old(self).cur().tag == token_tag),
    {
        self.expect_token_(token_tag, ParseErrorKind::Expected(token_tag))
    }

    /// Skips every token until one of the specified tag is found; that
    /// token itself is left unconsumed.
    pub fn skip_until(&mut self, token_tag: Tag)
        requires
            old(self).wf(),
        ensures
            final(self).advanced_from(old(self)),
            final(self).errors == old(self).errors,
            final(self).has_cur() ==> final(self).cur().tag == token_tag,
            !final(self).has_cur() ==> final(self).pos == final(self).tokens@.len(),
            forall|j: int|
                old(self).pos <= j < final(self).pos ==> #[trigger] final(self).tokens@[j].tag
                    != token_tag,
    {
        loop
            invariant
                self.wf(),
                self.tokens == old(self).tokens,
                self.errors == old(self).errors,
                old(self).pos <= self.pos,
                forall|j: int|
                    old(self).pos <= j < self.pos ==> #[trigger] self.tokens@[j].tag != token_tag,
            decreases self.tokens@.len() - self.pos,
        {
            let go = match self.peek() {
                Some(tok) => tok.tag != token_tag,
                None => false,
            };
            if go {
                self.next();
            } else {
                return ;
            }
        }
    }

    /// The location a diagnostic of the given length points at.
    pub fn loc(&self, len: u32) -> (l: Loc)
        requires
            self.wf(),
        ensures
            l == self.spec_loc(len),
    {
        if self.pos < self.tokens.len() {
            let t = &self.tokens[self.pos];
            Loc::new(t.pos, len, t.line)
        } else if self.tokens.len() > 0 {
            let t = &self.tokens[self.tokens.len() - 1];
            Loc::new(t.pos, len, t.line)
        } else {
            Loc::new(0, len, 1)
        }
    }
}

/// The binding-power table for infix operators: comparisons bind
/// loosest, additive operators next, multiplicative tightest. Each
/// right power is one above its left power, which is what makes every
/// operator left-associative: the spacing keeps a same-precedence
/// operator from re-capturing its own left operand.
pub open spec fn spec_infix_bp(tag: Tag) -> (u8, u8) {
    match tag {
        Tag::Minus | Tag::Plus => (3u8, 4u8),
        Tag::Slash | Tag::Asterisk => (5u8, 6u8),
        _ => (1u8, 2u8),
    }
}

/// Looks up the left and right binding power of an infix operator.
pub fn infix_bp(tag: Tag) -> (r: (u8, u8))
    requires
        crate::ast::spec_tag_is_binop(tag),
    ensures
        r == spec_infix_bp(tag),
{
    match tag {
        Tag::Minus | Tag::Plus => (3, 4),
        Tag::Slash | Tag::Asterisk => (5, 6),
        _ => (1, 2),
    }
}

/// The binding power to the right of a prefix operator: above every
/// infix power, so a unary operator captures only its immediate operand.
pub open spec fn spec_prefix_bp(tag: Tag) -> u8 {
    7u8
}

/// Looks up the right binding power of a prefix operator.
pub fn prefix_bp(tag: Tag) -> (r: ((), u8))
    requires
        crate::ast::spec_tag_is_unaryop(tag),
    ensures
        r.1 == spec_prefix_bp(tag),
{
    ((), 7)
}

/// Binding-power correctness, as a law of the table: every infix
/// operator's right power is exactly one above its left power, so a
/// run of one operator (or of operators of one precedence level)
/// groups to the left; and the three precedence levels are strictly
/// ordered, multiplicative above additive above comparison.
pub proof fn lemma_bp_left_assoc(tag: Tag)
    requires
        crate::ast::spec_tag_is_binop(tag),
    ensures
        spec_infix_bp(tag).1 == spec_infix_bp(tag).0 + 1,
        spec_infix_bp(Tag::Asterisk).0 > spec_infix_bp(Tag::Plus).1,
        spec_infix_bp(Tag::Plus).0 > spec_infix_bp(Tag::EqualEqual).1,
        spec_prefix_bp(tag) > spec_infix_bp(tag).1,
{
}

} // verus!
