use vstd::prelude::*;

use crate::ast::{
    tag_is_binop, spec_tag_is_binop, spec_tag_is_literal, child_wf, node_wf, wf_expr_child, Node, NodeBuilder, NodeChild,
    NodeType,
};
use crate::errors::{Loc, ParseError, ParseErrorKind, ParsingError};
use crate::parser::{spec_infix_bp, spec_prefix_bp, Parser};
use crate::token::{Tag, Token};

pub mod access;
pub mod array;
pub mod assign;
pub mod call;
pub mod control_flow;
pub mod block;
pub mod strct;

verus! {

/// Restricts the parsing of one or more alternations of an
/// expression while it is in force.
#[derive(PartialEq, Eq, Structural, Debug, Clone, Copy)]
pub struct Restrictions(pub u8);

impl Restrictions {
    /// No restriction in force.
    pub fn none() -> (r: Restrictions)
        ensures
            r.0 == 0,
            !r.restricts_block(),
    {
        proof {
            assert(0u8 & 1u8 == 0u8) by (bit_vector);
        }
        Restrictions(0)
    }

    /// Reject block expressions in prefix position (used for `if` and
    /// `while` conditions, where a leading `{` would be ambiguous with
    /// the body).
    pub fn block() -> (r: Restrictions)
        ensures
            r.0 == 1,
            r.restricts_block(),
    {
        proof {
            assert(1u8 & 1u8 != 0u8) by (bit_vector);
        }
        Restrictions(1)
    }

    /// Whether this set forbids block expressions.
    pub open spec fn restricts_block(self) -> bool {
        self.0 & 1 != 0
    }

    pub open spec fn spec_has(self, restriction: Restrictions) -> bool {
        self.0 & restriction.0 != 0
    }

    /// Whether every restriction of `restriction` is in force here.
    #[verifier::when_used_as_spec(spec_has)]
    pub fn has(self, restriction: Restrictions) -> (r: bool)
        ensures
            r == self.spec_has(restriction),
    {
        (self.0 & restriction.0) != 0
    }
}

/// The caller-supplied stop set: which delimiters legally end the
/// expression being parsed, so one entry point serves every
/// comma/bracket-delimited construct.
#[derive(PartialEq, Eq, Structural, Debug, Clone, Copy)]
pub enum Stop {
    /// No extra stop tokens.
    Nothing,
    /// Stop at `)` (a parenthesized group).
    CloseParen,
    /// Stop at `)` or `,` (a call argument).
    CloseParenOrComma,
    /// Stop at `]` (an index expression).
    CloseBracket,
    /// Stop at `]` or `,` (an array element).
    CloseBracketOrComma,
    /// Stop at `}` or `,` (a struct-literal field value).
    CloseBraceOrComma,
    /// Stop at `{` (an `if`/`while` condition).
    OpenBrace,
}

pub open spec fn spec_stops_at(stop: Stop, tag: Tag) -> bool {
    match stop {
        Stop::Nothing => false,
        Stop::CloseParen => tag == Tag::RParen,
        Stop::CloseParenOrComma => tag == Tag::RParen || tag == Tag::Comma,
        Stop::CloseBracket => tag == Tag::RBracket,
        Stop::CloseBracketOrComma => tag == Tag::RBracket || tag == Tag::Comma,
        Stop::CloseBraceOrComma => tag == Tag::RBrace || tag == Tag::Comma,
        Stop::OpenBrace => tag == Tag::LBrace,
    }
}

/// Whether the stop set accepts this tag as a legal end of the
/// expression.
#[verifier::when_used_as_spec(spec_stops_at)]
pub fn stops_at(stop: Stop, tag: Tag) -> (r: bool)
    ensures
        r == spec_stops_at(stop, tag),
{
    match stop {
        Stop::Nothing => false,
        Stop::CloseParen => tag == Tag::RParen,
        Stop::CloseParenOrComma => tag == Tag::RParen || tag == Tag::Comma,
        Stop::CloseBracket => tag == Tag::RBracket,
        Stop::CloseBracketOrComma => tag == Tag::RBracket || tag == Tag::Comma,
        Stop::CloseBraceOrComma => tag == Tag::RBrace || tag == Tag::Comma,
        Stop::OpenBrace => tag == Tag::LBrace,
    }
}

/// The tokens that can lead an expression as the next statement, at
/// which expression synchronization rests without consuming.
pub open spec fn spec_expr_sync_leading(tag: Tag) -> bool {
    ||| tag == Tag::Let
    ||| tag == Tag::Str
    ||| tag == Tag::Number
    ||| tag == Tag::Bool
    ||| tag == Tag::Minus
    ||| tag == Tag::Bang
    ||| tag == Tag::Break
    ||| tag == Tag::Return
    ||| tag == Tag::LParen
    ||| tag == Tag::LBrace
    ||| tag == Tag::If
}

/// The region `[lo, hi)` of the token stream holds neither the given
/// closer nor an expression leader: exactly what an expression
/// synchronization sweep may discard.
pub open spec fn expr_sync_clean(toks: Seq<Token>, lo: int, hi: int, closer: Tag) -> bool {
    forall|j: int|
        lo <= j < hi ==> #[trigger] toks[j].tag != closer && !spec_expr_sync_leading(toks[j].tag)
}

/// The tokens that syntactically must end an expression in this
/// grammar whatever the stop set says: statement leaders and the
/// block closer.
pub open spec fn spec_ends_expr(tag: Tag) -> bool {
    ||| tag == Tag::Let
    ||| tag == Tag::Break
    ||| tag == Tag::Return
    ||| tag == Tag::If
    ||| tag == Tag::Semicolon
    ||| tag == Tag::While
    ||| tag == Tag::Ident
    ||| tag == Tag::RBrace
}

#[verifier::when_used_as_spec(spec_ends_expr)]
pub fn ends_expr(tag: Tag) -> (r: bool)
    ensures
        r == spec_ends_expr(tag),
{
    match tag {
        Tag::Let | Tag::Break | Tag::Return | Tag::If | Tag::Semicolon | Tag::While | Tag::Ident
        | Tag::RBrace => true,
        _ => false,
    }
}

/// Looks up the left and right binding power of an infix operator.
pub fn infix(tag: Tag) -> (r: (u8, u8))
    requires
        spec_tag_is_binop(tag),
    ensures
        r == spec_infix_bp(tag),
{
    crate::parser::infix_bp(tag)
}

/// Looks up the right binding power of a prefix operator.
pub fn prefix(tag: Tag) -> (r: ((), u8))
    requires
        crate::ast::spec_tag_is_unaryop(tag),
    ensures
        r.1 == spec_prefix_bp(tag),
{
    crate::parser::prefix_bp(tag)
}

/// The one-token expression pattern: a literal or identifier atom
/// whose very next token legally ends the expression. On this
/// pattern the engine owes success: the atom itself, one token
/// consumed, no diagnostic.
pub open spec fn spec_atom_expr_at(toks: Seq<Token>, i: int, stop: Stop) -> bool {
    &&& 0 <= i
    &&& i + 1 < toks.len()
    &&& spec_tag_is_literal(toks[i].tag)
    &&& (spec_stops_at(stop, toks[i + 1].tag) || spec_ends_expr(toks[i + 1].tag))
}

/// Every infix node on the operator spine of this child — the node
/// itself and, recursively, both operand sides — carries an operator
/// of left binding power at least `min`: what the engine's threshold
/// discipline guarantees of everything it folds at one level.
pub open spec fn spine_ops_at_least(c: NodeChild, min: u8) -> bool
    decreases c,
{
    match c {
        NodeChild::Node(n) => {
            (n.kind.0 == NodeType::Infix && n.children is Some && n.kids().len() == 3) ==> {
                &&& (n.kids()[1] is Token ==> spec_infix_bp(n.kids()[1]->Token_0.tag).0 >= min)
                &&& spine_ops_at_least(n.kids()[0], min)
                &&& spine_ops_at_least(n.kids()[2], min)
            }
        },
        NodeChild::Token(_) => true,
    }
}

/// A spine bound weakens monotonically.
pub proof fn lemma_spine_ops_monotone(c: NodeChild, hi: u8, lo: u8)
    requires
        spine_ops_at_least(c, hi),
        lo <= hi,
    ensures
        spine_ops_at_least(c, lo),
    decreases c,
{
    match c {
        NodeChild::Node(n) => {
            if n.kind.0 == NodeType::Infix && n.children is Some && n.kids().len() == 3 {
                lemma_spine_ops_monotone(n.kids()[0], hi, lo);
                lemma_spine_ops_monotone(n.kids()[2], hi, lo);
            }
        },
        NodeChild::Token(_) => {},
    }
}

/// A literal or identifier atom whose follower cannot extend it in
/// prefix position (no call, assignment, index or field access opens
/// after it): the prefix parser owes exactly that token back.
pub open spec fn spec_atom_prefix_at(toks: Seq<Token>, i: int) -> bool {
    &&& 0 <= i
    &&& i + 1 < toks.len()
    &&& spec_tag_is_literal(toks[i].tag)
    &&& !(toks[i + 1].tag == Tag::LParen || toks[i + 1].tag == Tag::Equal || toks[i + 1].tag
        == Tag::LBracket || toks[i + 1].tag == Tag::Dot)
}

/// The three-token infix pattern: an atom, one infix operator, and a
/// second atom whose follower legally ends the expression. At
/// threshold zero the engine owes exactly the infix node of these
/// three tokens, in source order — which is what pins the operands'
/// sides.
pub open spec fn spec_atom_infix_atom_at(toks: Seq<Token>, i: int, stop: Stop) -> bool {
    &&& spec_atom_prefix_at(toks, i)
    &&& spec_tag_is_binop(toks[i + 1].tag)
    &&& spec_atom_expr_at(toks, i + 2, stop)
}

/// The node is the infix of exactly these three tokens: left
/// operand, operator, right operand, in source order.
pub open spec fn simple_infix_children(
    n: Node,
    a: crate::token::SpecToken,
    op: crate::token::SpecToken,
    b: crate::token::SpecToken,
) -> bool {
    &&& n.kind.0 == NodeType::Infix
    &&& n.kids().len() == 3
    &&& n.kids()[0] is Token && n.kids()[0]->Token_0@ == a
    &&& n.kids()[1] is Token && n.kids()[1]->Token_0@ == op
    &&& n.kids()[2] is Token && n.kids()[2]->Token_0@ == b
}

/// The five-token chain `atom op atom op atom` whose second operator
/// binds no tighter than the first lets go: the spacing of the table
/// (right power one above left) makes the chain group to the left.
pub open spec fn spec_left_chain_at(toks: Seq<Token>, i: int, stop: Stop) -> bool {
    &&& spec_atom_prefix_at(toks, i)
    &&& spec_tag_is_binop(toks[i + 1].tag)
    &&& spec_atom_prefix_at(toks, i + 2)
    &&& spec_tag_is_binop(toks[i + 3].tag)
    &&& spec_infix_bp(toks[i + 3].tag).0 < spec_infix_bp(toks[i + 1].tag).1
    &&& spec_atom_expr_at(toks, i + 4, stop)
}

/// The five-token chain whose second operator binds tighter than the
/// first holds on: the recursive right-hand parse keeps it, so the
/// chain groups to the right.
pub open spec fn spec_right_chain_at(toks: Seq<Token>, i: int, stop: Stop) -> bool {
    &&& spec_atom_prefix_at(toks, i)
    &&& spec_tag_is_binop(toks[i + 1].tag)
    &&& spec_atom_prefix_at(toks, i + 2)
    &&& spec_tag_is_binop(toks[i + 3].tag)
    &&& spec_infix_bp(toks[i + 3].tag).0 >= spec_infix_bp(toks[i + 1].tag).1
    &&& spec_atom_expr_at(toks, i + 4, stop)
}

/// A literal atom that is the last token of the input: whether the
/// atom came back from the prefix parse (and the extension loop then
/// ran out of input) or the identifier path hit the end first, the
/// engine owes exactly one unexpected-end-of-input diagnostic and a
/// contained failure.
pub open spec fn spec_atom_at_end(toks: Seq<Token>, i: int) -> bool {
    &&& 0 <= i
    &&& i + 1 == toks.len()
    &&& spec_tag_is_literal(toks[i].tag)
}

/// An atom followed by a token that is neither an infix operator nor
/// a legal end of the expression: the engine owes the exact
/// expected-operator diagnostic at that token, and a contained
/// failure.
pub open spec fn spec_stuck_expr_at(toks: Seq<Token>, i: int, stop: Stop) -> bool {
    &&& spec_atom_prefix_at(toks, i)
    &&& !spec_tag_is_binop(toks[i + 1].tag)
    &&& !spec_stops_at(stop, toks[i + 1].tag)
    &&& !spec_ends_expr(toks[i + 1].tag)
}

/// The parenthesized one-token expression pattern: `( atom )`. On
/// this pattern the prefix parser owes a Group node, three tokens
/// consumed, no diagnostic.
pub open spec fn spec_paren_atom_at(toks: Seq<Token>, i: int) -> bool {
    &&& 0 <= i
    &&& i + 2 < toks.len()
    &&& toks[i].tag == Tag::LParen
    &&& spec_tag_is_literal(toks[i + 1].tag)
    &&& toks[i + 2].tag == Tag::RParen
}

/// The location covered by a token, as a diagnostic reports it.
pub open spec fn spec_token_loc(t: crate::token::SpecToken) -> Loc {
    Loc { start: t.pos, len: t.value.len() as u32, line: t.line }
}

impl Parser {
    /// Parses one expression with no restriction and no extra stop
    /// tokens.
    pub fn expr(&mut self) -> (r: Result<NodeChild, ParsingError>)
        requires
            old(self).wf(),
        ensures
            final(self).advanced_from(old(self)),
            old(self).has_cur() ==> final(self).pos > old(self).pos,
            r is Ok ==> final(self).pos > old(self).pos,
            r is Ok ==> wf_expr_child(r->Ok_0),
            r is Err ==> final(self).errors@.len() > old(self).errors@.len(),
            r is Ok && final(self).has_cur() ==> spec_ends_expr(final(self).cur().tag),
            spec_atom_expr_at(old(self).tokens@, old(self).pos as int, Stop::Nothing) ==> r is Ok
                && final(self).pos == old(self).pos + 1 && final(self).errors == old(self).errors
                && r->Ok_0 is Token && r->Ok_0->Token_0@ == old(self).cur()@,
            spec_atom_infix_atom_at(old(self).tokens@, old(self).pos as int, Stop::Nothing)
                ==> r is Ok && final(self).errors == old(self).errors && r->Ok_0 is Node
                && simple_infix_children(
                r->Ok_0->Node_0,
                old(self).tokens@[old(self).pos as int]@,
                old(self).tokens@[old(self).pos + 1]@,
                old(self).tokens@[old(self).pos + 2]@,
            ),
            spec_left_chain_at(old(self).tokens@, old(self).pos as int, Stop::Nothing) ==> r is Ok
                && final(self).errors == old(self).errors && r->Ok_0 is Node
                && r->Ok_0->Node_0.kids().len() == 3 && r->Ok_0->Node_0.kids()[0] is Node
                && simple_infix_children(
                r->Ok_0->Node_0.kids()[0]->Node_0,
                old(self).tokens@[old(self).pos as int]@,
                old(self).tokens@[old(self).pos + 1]@,
                old(self).tokens@[old(self).pos + 2]@,
            ) && r->Ok_0->Node_0.kids()[2] is Token && r->Ok_0->Node_0.kids()[2]->Token_0@
                == old(self).tokens@[old(self).pos + 4]@,
            spec_right_chain_at(old(self).tokens@, old(self).pos as int, Stop::Nothing) ==> r
                is Ok && final(self).errors == old(self).errors && r->Ok_0 is Node
                && r->Ok_0->Node_0.kids().len() == 3 && r->Ok_0->Node_0.kids()[0] is Token
                && r->Ok_0->Node_0.kids()[0]->Token_0@ == old(self).tokens@[old(self).pos as int]@
                && r->Ok_0->Node_0.kids()[2] is Node && simple_infix_children(
                r->Ok_0->Node_0.kids()[2]->Node_0,
                old(self).tokens@[old(self).pos + 2]@,
                old(self).tokens@[old(self).pos + 3]@,
                old(self).tokens@[old(self).pos + 4]@,
            ),
        decreases old(self).tokens@.len() - old(self).pos, 40int,
    {
        self.expr_bp(0, Restrictions::none(), Stop::Nothing)
    }

    /// Parses one expression under the given restriction set.
    pub fn expr_with_restrictions(&mut self, restrictions: Restrictions) -> (r: Result<
        NodeChild,
        ParsingError,
    >)
        requires
            old(self).wf(),
        ensures
            final(self).advanced_from(old(self)),
            old(self).has_cur() ==> final(self).pos > old(self).pos,
            r is Ok ==> final(self).pos > old(self).pos,
            r is Ok ==> wf_expr_child(r->Ok_0),
            r is Err ==> final(self).errors@.len() > old(self).errors@.len(),
            r is Ok && final(self).has_cur() ==> spec_ends_expr(final(self).cur().tag),
            spec_atom_expr_at(old(self).tokens@, old(self).pos as int, Stop::Nothing) ==> r is Ok
                && final(self).pos == old(self).pos + 1 && final(self).errors == old(self).errors
                && r->Ok_0 is Token && r->Ok_0->Token_0@ == old(self).cur()@,
        decreases old(self).tokens@.len() - old(self).pos, 40int,
    {
        self.expr_bp(0, restrictions, Stop::Nothing)
    }

    /// Parses one expression that may legally end at the given stop
    /// tokens (the closing delimiter of the construct around it).
    pub fn expr_with_stop(&mut self, stop: Stop) -> (r: Result<NodeChild, ParsingError>)
        requires
            old(self).wf(),
        ensures
            final(self).advanced_from(old(self)),
            old(self).has_cur() ==> final(self).pos > old(self).pos,
            r is Ok ==> final(self).pos > old(self).pos,
            r is Ok ==> wf_expr_child(r->Ok_0),
            r is Err ==> final(self).errors@.len() > old(self).errors@.len(),
            r is Ok && final(self).has_cur() ==> spec_stops_at(stop, final(self).cur().tag)
                || spec_ends_expr(final(self).cur().tag),
            spec_atom_expr_at(old(self).tokens@, old(self).pos as int, stop) ==> r is Ok
                && final(self).pos == old(self).pos + 1 && final(self).errors == old(self).errors
                && r->Ok_0 is Token && r->Ok_0->Token_0@ == old(self).cur()@,
        decreases old(self).tokens@.len() - old(self).pos, 40int,
    {
        self.expr_bp(0, Restrictions::none(), stop)
    }

    /// The binding-power engine: parses a prefix/atom as the left-hand
    /// side, then extends it with infix operators of power at least
    /// `min_bp`, stopping at stop tokens, at expression enders, or at
    /// an operator weak enough that an outer call must reclaim it.
    /// Besides well-shapedness of every result, the contract pins the
    /// exact tree on the bounded token patterns (a lone atom, one
    /// infix, the two five-token chains — which is where the
    /// associativity and precedence of the table become visible as
    /// tree shape), the reclaim behaviour, and the exact diagnostic
    /// on a stuck or restricted expression.
    pub fn expr_bp(&mut self, min_bp: u8, restrictions: Restrictions, stop: Stop) -> (r: Result<
        NodeChild,
        ParsingError,
    >)
        requires
            old(self).wf(),
        ensures
            final(self).advanced_from(old(self)),
            old(self).has_cur() ==> final(self).pos > old(self).pos,
            r is Ok ==> final(self).pos > old(self).pos,
            r is Ok ==> wf_expr_child(r->Ok_0),
            r is Err ==> final(self).errors@.len() > old(self).errors@.len(),
            r is Ok && final(self).has_cur() ==> spec_stops_at(stop, final(self).cur().tag)
                || spec_ends_expr(final(self).cur().tag) || (spec_tag_is_binop(
                final(self).cur().tag,
            ) && spec_infix_bp(final(self).cur().tag).0 < min_bp),
            r is Ok ==> spine_ops_at_least(r->Ok_0, min_bp),
            spec_atom_expr_at(old(self).tokens@, old(self).pos as int, stop) ==> r is Ok
                && final(self).pos == old(self).pos + 1 && final(self).errors == old(self).errors
                && r->Ok_0 is Token && r->Ok_0->Token_0@ == old(self).cur()@,
            spec_atom_prefix_at(old(self).tokens@, old(self).pos as int) && spec_tag_is_binop(
                old(self).tokens@[old(self).pos + 1].tag,
            ) && spec_infix_bp(old(self).tokens@[old(self).pos + 1].tag).0 < min_bp ==> r is Ok
                && final(self).pos == old(self).pos + 1 && final(self).errors == old(self).errors
                && r->Ok_0 is Token && r->Ok_0->Token_0@ == old(self).cur()@,
            spec_atom_infix_atom_at(old(self).tokens@, old(self).pos as int, stop)
                && spec_infix_bp(old(self).tokens@[old(self).pos + 1].tag).0 >= min_bp ==> r is Ok
                && final(self).pos == old(self).pos + 3 && final(self).errors == old(self).errors
                && r->Ok_0 is Node && simple_infix_children(
                r->Ok_0->Node_0,
                old(self).tokens@[old(self).pos as int]@,
                old(self).tokens@[old(self).pos + 1]@,
                old(self).tokens@[old(self).pos + 2]@,
            ),
            spec_left_chain_at(old(self).tokens@, old(self).pos as int, stop) && min_bp == 0
                ==> r is Ok && final(self).pos == old(self).pos + 5 && final(self).errors == old(self).errors && r->Ok_0 is Node && r->Ok_0->Node_0.kind.0 == NodeType::Infix
                && r->Ok_0->Node_0.kids().len() == 3 && r->Ok_0->Node_0.kids()[0] is Node
                && simple_infix_children(
                r->Ok_0->Node_0.kids()[0]->Node_0,
                old(self).tokens@[old(self).pos as int]@,
                old(self).tokens@[old(self).pos + 1]@,
                old(self).tokens@[old(self).pos + 2]@,
            ) && r->Ok_0->Node_0.kids()[1] is Token && r->Ok_0->Node_0.kids()[1]->Token_0@
                == old(self).tokens@[old(self).pos + 3]@ && r->Ok_0->Node_0.kids()[2] is Token
                && r->Ok_0->Node_0.kids()[2]->Token_0@ == old(self).tokens@[old(self).pos + 4]@,
            spec_right_chain_at(old(self).tokens@, old(self).pos as int, stop) && min_bp == 0
                ==> r is Ok && final(self).pos == old(self).pos + 5 && final(self).errors == old(self).errors && r->Ok_0 is Node && r->Ok_0->Node_0.kind.0 == NodeType::Infix
                && r->Ok_0->Node_0.kids().len() == 3 && r->Ok_0->Node_0.kids()[0] is Token
                && r->Ok_0->Node_0.kids()[0]->Token_0@ == old(self).tokens@[old(self).pos as int]@
                && r->Ok_0->Node_0.kids()[1] is Token && r->Ok_0->Node_0.kids()[1]->Token_0@
                == old(self).tokens@[old(self).pos + 1]@ && r->Ok_0->Node_0.kids()[2] is Node
                && simple_infix_children(
                r->Ok_0->Node_0.kids()[2]->Node_0,
                old(self).tokens@[old(self).pos + 2]@,
                old(self).tokens@[old(self).pos + 3]@,
                old(self).tokens@[old(self).pos + 4]@,
            ),
            spec_paren_atom_at(old(self).tokens@, old(self).pos as int) && old(self).pos + 3
                < old(self).tokens@.len() && (spec_stops_at(
                stop,
                old(self).tokens@[old(self).pos + 3].tag,
            ) || spec_ends_expr(old(self).tokens@[old(self).pos + 3].tag)) ==> r is Ok && final(self).pos == old(self).pos + 3 && final(self).errors == old(self).errors
                && r->Ok_0 is Node && r->Ok_0->Node_0.kind.0 == NodeType::Group,
            spec_stuck_expr_at(old(self).tokens@, old(self).pos as int, stop) ==> r == Result::<
                NodeChild,
                ParsingError,
            >::Err(ParsingError::Failed) && final(self).pos == old(self).pos + 1 && final(self).errors@ == old(self).errors@.push(
                ParseError {
                    kind: ParseErrorKind::ExpectedOperator,
                    location: spec_token_loc(old(self).tokens@[old(self).pos + 1]@),
                },
            ),
            spec_atom_at_end(old(self).tokens@, old(self).pos as int) ==> r == Result::<
                NodeChild,
                ParsingError,
            >::Err(ParsingError::Failed) && final(self).pos == old(self).pos + 1 && final(self).errors@ == old(self).errors@.push(
                ParseError {
                    kind: ParseErrorKind::UnexpectedEOF,
                    location: (Loc {
                        start: old(self).tokens@[old(self).pos as int].pos,
                        len: 0,
                        line: old(self).tokens@[old(self).pos as int].line,
                    }),
                },
            ),
            old(self).has_cur() && old(self).cur().tag == Tag::LBrace
                && restrictions.restricts_block() ==> r == Result::<
                NodeChild,
                ParsingError,
            >::Err(ParsingError::Failed) && final(self).pos == old(self).pos + 1 && final(self).errors@ == old(self).errors@.push(
                ParseError {
                    kind: ParseErrorKind::BlockExprDisallowed,
                    location: spec_token_loc(old(self).cur()@),
                },
            ),
        decreases old(self).tokens@.len() - old(self).pos, 30int,
    {
        let mut lhs = match self.parse_prefix(restrictions, stop) {
            Ok(c) => c,
            Err(e) => { return Err(e) },
        };

        loop
            invariant
                self.wf(),
                self.advanced_from(old(self)),
                self.pos > old(self).pos,
                wf_expr_child(lhs),
                spine_ops_at_least(lhs, min_bp),
                !(old(self).has_cur() && old(self).cur().tag == Tag::LBrace
                    && restrictions.restricts_block()),
                spec_atom_expr_at(old(self).tokens@, old(self).pos as int, stop) ==> self.pos
                    == old(self).pos + 1 && self.errors == old(self).errors && lhs is Token
                    && lhs->Token_0@ == old(self).cur()@,
                spec_atom_prefix_at(old(self).tokens@, old(self).pos as int) && spec_tag_is_binop(
                    old(self).tokens@[old(self).pos + 1].tag,
                ) && spec_infix_bp(old(self).tokens@[old(self).pos + 1].tag).0 < min_bp
                    ==> self.pos == old(self).pos + 1 && self.errors == old(self).errors
                    && lhs is Token && lhs->Token_0@ == old(self).cur()@,
                spec_stuck_expr_at(old(self).tokens@, old(self).pos as int, stop) ==> self.pos
                    == old(self).pos + 1 && self.errors == old(self).errors,
                spec_atom_at_end(old(self).tokens@, old(self).pos as int) ==> self.pos == old(self).pos + 1 && self.errors == old(self).errors,
                spec_atom_infix_atom_at(old(self).tokens@, old(self).pos as int, stop)
                    && spec_infix_bp(old(self).tokens@[old(self).pos + 1].tag).0 >= min_bp ==> (
                self.pos == old(self).pos + 1 && self.errors == old(self).errors && lhs is Token
                    && lhs->Token_0@ == old(self).cur()@) || (self.pos == old(self).pos + 3
                    && self.errors == old(self).errors && lhs is Node && simple_infix_children(
                    lhs->Node_0,
                    old(self).tokens@[old(self).pos as int]@,
                    old(self).tokens@[old(self).pos + 1]@,
                    old(self).tokens@[old(self).pos + 2]@,
                )),
                spec_left_chain_at(old(self).tokens@, old(self).pos as int, stop) && min_bp == 0
                    ==> (self.pos == old(self).pos + 1 && self.errors == old(self).errors
                    && lhs is Token && lhs->Token_0@ == old(self).cur()@) || (self.pos == old(self).pos + 3 && self.errors == old(self).errors && lhs is Node
                    && simple_infix_children(
                    lhs->Node_0,
                    old(self).tokens@[old(self).pos as int]@,
                    old(self).tokens@[old(self).pos + 1]@,
                    old(self).tokens@[old(self).pos + 2]@,
                )) || (self.pos == old(self).pos + 5 && self.errors == old(self).errors
                    && lhs is Node && lhs->Node_0.kind.0 == NodeType::Infix
                    && lhs->Node_0.kids().len() == 3 && lhs->Node_0.kids()[0] is Node
                    && simple_infix_children(
                    lhs->Node_0.kids()[0]->Node_0,
                    old(self).tokens@[old(self).pos as int]@,
                    old(self).tokens@[old(self).pos + 1]@,
                    old(self).tokens@[old(self).pos + 2]@,
                ) && lhs->Node_0.kids()[1] is Token && lhs->Node_0.kids()[1]->Token_0@ == old(self).tokens@[old(self).pos + 3]@ && lhs->Node_0.kids()[2] is Token
                    && lhs->Node_0.kids()[2]->Token_0@ == old(self).tokens@[old(self).pos + 4]@),
                spec_right_chain_at(old(self).tokens@, old(self).pos as int, stop) && min_bp == 0
                    ==> (self.pos == old(self).pos + 1 && self.errors == old(self).errors
                    && lhs is Token && lhs->Token_0@ == old(self).cur()@) || (self.pos == old(self).pos + 5 && self.errors == old(self).errors && lhs is Node
                    && lhs->Node_0.kind.0 == NodeType::Infix && lhs->Node_0.kids().len() == 3
                    && lhs->Node_0.kids()[0] is Token && lhs->Node_0.kids()[0]->Token_0@ == old(self).tokens@[old(self).pos as int]@ && lhs->Node_0.kids()[1] is Token
                    && lhs->Node_0.kids()[1]->Token_0@ == old(self).tokens@[old(self).pos + 1]@
                    && lhs->Node_0.kids()[2] is Node && simple_infix_children(
                    lhs->Node_0.kids()[2]->Node_0,
                    old(self).tokens@[old(self).pos + 2]@,
                    old(self).tokens@[old(self).pos + 3]@,
                    old(self).tokens@[old(self).pos + 4]@,
                )),
                spec_paren_atom_at(old(self).tokens@, old(self).pos as int) && old(self).pos + 3
                    < old(self).tokens@.len() && (spec_stops_at(
                    stop,
                    old(self).tokens@[old(self).pos + 3].tag,
                ) || spec_ends_expr(old(self).tokens@[old(self).pos + 3].tag)) ==> self.pos == old(self).pos + 3 && self.errors == old(self).errors && lhs is Node
                    && lhs->Node_0.kind.0 == NodeType::Group,
            decreases self.tokens@.len() - self.pos,
        {
            let tag = match self.peek() {
                Some(tok) => tok.tag,
                None => {
                    let l = self.loc(0);
                    self.add_error(ParseErrorKind::UnexpectedEOF, l);
                    return Err(ParsingError::Failed);
                },
            };

            if tag_is_binop(tag) {
                let bp = infix(tag);
                if bp.0 < min_bp {
                    // An outer call with the smaller threshold reclaims
                    // this operator.
                    return Ok(lhs);
                }
                let op = match self.next() {
                    Some(t) => t,
                    None => unreached(),
                };

                // Parse the right-hand side up to the next operator
                // whose binding power falls below this one's right power.
                let rhs = match self.expr_bp(bp.1, restrictions, stop) {
                    Ok(c) => c,
                    Err(e) => { return Err(e) },
                };

                let mut lhs_builder = NodeBuilder::from_type(NodeType::Infix);
                let ghost lold = lhs;
                lhs_builder.add(lhs);
                lhs_builder.add(NodeChild::Token(op));
                lhs_builder.add(rhs);
                let node = lhs_builder.finish(false);
                proof {
                    let cs = node.kids();
                    assert(cs.len() == 3);
                    assert(cs[0] == lold);
                    assert(cs[1] == NodeChild::Token(op));
                    assert(cs[2] == rhs);
                    assert(child_wf(lold));
                    assert(child_wf(NodeChild::Token(op)));
                    assert(child_wf(rhs));
                    assert(node_wf(node));
                    lemma_spine_ops_monotone(rhs, bp.1, min_bp);
                    assert(spine_ops_at_least(NodeChild::Node(node), min_bp));
                }
                lhs = NodeChild::Node(node);
            } else if stops_at(stop, tag) || ends_expr(tag) {
                return Ok(lhs);
            } else {
                let l = match self.peek() {
                    Some(tok) => Loc::from_token(tok),
                    None => unreached(),
                };
                self.add_error(ParseErrorKind::ExpectedOperator, l);
                return Err(ParsingError::Failed);
            }
        }
    }

    /// Parses one prefix/atom form: a literal, an identifier (possibly
    /// opening a call, assignment, index or field access), a unary
    /// operator, a control-flow expression, an array, a group, or a
    /// block. Under the block restriction a leading `{` is rejected
    /// with the block-disallowed diagnostic.
    pub fn parse_prefix(&mut self, restrictions: Restrictions, stop: Stop) -> (r: Result<
        NodeChild,
        ParsingError,
    >)
        requires
            old(self).wf(),
        ensures
            final(self).advanced_from(old(self)),
            old(self).has_cur() ==> final(self).pos > old(self).pos,
            r is Ok ==> final(self).pos > old(self).pos,
            r is Ok ==> wf_expr_child(r->Ok_0),
            r is Ok ==> !(r->Ok_0 is Node && r->Ok_0->Node_0.kind.0 == NodeType::Infix),
            r is Err ==> final(self).errors@.len() > old(self).errors@.len(),
            old(self).has_cur() && old(self).cur().tag == Tag::LBrace
                && restrictions.restricts_block() ==> r == Result::<
                NodeChild,
                ParsingError,
            >::Err(ParsingError::Failed) && final(self).pos == old(self).pos + 1 && final(self).errors@ == old(self).errors@.push(
                ParseError {
                    kind: ParseErrorKind::BlockExprDisallowed,
                    location: spec_token_loc(old(self).cur()@),
                },
            ),
            spec_atom_prefix_at(old(self).tokens@, old(self).pos as int) ==> r is Ok && final(self).pos == old(self).pos + 1 && final(self).errors == old(self).errors
                && r->Ok_0 is Token && r->Ok_0->Token_0@ == old(self).cur()@,
            spec_atom_at_end(old(self).tokens@, old(self).pos as int) && old(self).cur().tag
                != Tag::Ident ==> r is Ok && final(self).pos == old(self).pos + 1 && final(self).errors == old(self).errors && r->Ok_0 is Token && r->Ok_0->Token_0@ == old(self).cur()@,
            spec_atom_at_end(old(self).tokens@, old(self).pos as int) && old(self).cur().tag
                == Tag::Ident ==> r == Result::<NodeChild, ParsingError>::Err(ParsingError::Failed)
                && final(self).pos == old(self).pos + 1 && final(self).errors@ == old(self).errors@.push(
                ParseError {
                    kind: ParseErrorKind::UnexpectedEOF,
                    location: (Loc {
                        start: old(self).tokens@[old(self).pos as int].pos,
                        len: 0,
                        line: old(self).tokens@[old(self).pos as int].line,
                    }),
                },
            ),
            spec_paren_atom_at(old(self).tokens@, old(self).pos as int) ==> r is Ok
                && final(self).pos == old(self).pos + 3 && final(self).errors == old(self).errors
                && r->Ok_0 is Node && r->Ok_0->Node_0.kind.0 == NodeType::Group,
        decreases old(self).tokens@.len() - old(self).pos, 20int,
    {
        let tok = match self.next() {
            Some(t) => t,
            None => {
                let l = self.loc(0);
                self.add_error(ParseErrorKind::UnexpectedEOF, l);
                return Err(ParsingError::Failed);
            },
        };

        match tok.tag {
            Tag::Ident => {
                let follow = match self.peek() {
                    Some(t) => t.tag,
                    None => {
                        let l = self.loc(0);
                        self.add_error(ParseErrorKind::UnexpectedEOF, l);
                        return Err(ParsingError::Failed);
                    },
                };
                match follow {
                    Tag::LParen => {
                        self.next();
                        match self.call_expr(tok) {
                            Ok(n) => Ok(NodeChild::Node(n)),
                            Err(e) => Err(e),
                        }
                    },
                    Tag::Equal => {
                        self.next();
                        match self.assign_expr(tok) {
                            Ok(n) => Ok(NodeChild::Node(n)),
                            Err(e) => Err(e),
                        }
                    },
                    Tag::LBracket => {
                        self.next();
                        match self.index_expr(tok) {
                            Ok(n) => Ok(NodeChild::Node(n)),
                            Err(e) => Err(e),
                        }
                    },
                    Tag::Dot => {
                        self.next();
                        match self.field_access_expr(tok) {
                            Ok(n) => Ok(NodeChild::Node(n)),
                            Err(e) => Err(e),
                        }
                    },
                    _ => Ok(NodeChild::Token(tok)),
                }
            },
            Tag::Str | Tag::Bool | Tag::Number => Ok(NodeChild::Token(tok)),
            Tag::Dot => {
                if self.peek_is(Tag::Ident) {
                    match self.struct_expr() {
                        Ok(n) => Ok(NodeChild::Node(n)),
                        Err(e) => Err(e),
                    }
                } else {
                    let l = self.loc(1);
                    self.add_error(ParseErrorKind::Expected(Tag::Ident), l);
                    Err(ParsingError::Failed)
                }
            },
            Tag::Minus | Tag::Bang => {
                let rbp = crate::parser::prefix_bp(tok.tag).1;
                let rhs = match self.expr_bp(rbp, restrictions, stop) {
                    Ok(c) => c,
                    Err(e) => { return Err(e) },
                };
                let mut node = NodeBuilder::from_type(NodeType::Prefix);
                node.add(NodeChild::Token(tok));
                node.add(rhs);
                let n = node.finish(false);
                proof {
                    let cs = n.kids();
                    assert(cs.len() == 2);
                    assert(cs[1] == rhs);
                    assert(child_wf(NodeChild::Token(tok)));
                    assert(child_wf(rhs));
                    assert(node_wf(n));
                }
                Ok(NodeChild::Node(n))
            },
            Tag::If => {
                match self.if_expr() {
                    Ok(n) => Ok(NodeChild::Node(n)),
                    Err(e) => Err(e),
                }
            },
            Tag::While => {
                match self.while_expr() {
                    Ok(n) => Ok(NodeChild::Node(n)),
                    Err(e) => Err(e),
                }
            },
            Tag::Return => {
                match self.return_expr() {
                    Ok(n) => Ok(NodeChild::Node(n)),
                    Err(e) => Err(e),
                }
            },
            Tag::Break => {
                match self.break_expr() {
                    Ok(n) => Ok(NodeChild::Node(n)),
                    Err(e) => Err(e),
                }
            },
            Tag::Continue => {
                match self.continue_expr() {
                    Ok(n) => Ok(NodeChild::Node(n)),
                    Err(e) => Err(e),
                }
            },
            Tag::LBracket => {
                match self.array_expr() {
                    Ok(n) => Ok(NodeChild::Node(n)),
                    Err(e) => Err(e),
                }
            },
            Tag::LParen => {
                // An explicit delimiter bounds the expression, so the
                // restriction is lifted inside the parentheses and the
                // stop predicate becomes "the closing parenthesis".
                let inner = match self.expr_bp(0, Restrictions::none(), Stop::CloseParen) {
                    Ok(c) => c,
                    Err(e) => { return Err(e) },
                };
                if self.expect_token(Tag::RParen).is_empty() {
                    return Err(ParsingError::Failed);
                }
                let mut node = NodeBuilder::from_type(NodeType::Group);
                node.add(inner);
                let n = node.finish(false);
                proof {
                    let cs = n.kids();
                    assert(cs.len() == 1);
                    assert(cs[0] == inner);
                    assert(child_wf(inner));
                    assert(node_wf(n));
                }
                Ok(NodeChild::Node(n))
            },
            Tag::LBrace => {
                if restrictions.has(Restrictions::block()) {
                    let l = Loc::from_token(&tok);
                    self.add_error(ParseErrorKind::BlockExprDisallowed, l);
                    Err(ParsingError::Failed)
                } else {
                    match self.block_expr() {
                        Ok(n) => Ok(NodeChild::Node(n)),
                        Err(e) => Err(e),
                    }
                }
            },
            _ => {
                // No recovery here: cascading inside an expression is
                // too likely, so the caller is tasked with
                // synchronization.
                let l = Loc::from_token(&tok);
                self.add_error(ParseErrorKind::ExpectedExpr, l);
                Err(ParsingError::Failed)
            },
        }
    }

    /// Panic-mode recovery inside an expression: discards every token
    /// up to the first checkpoint. The given closer is consumed; a
    /// token that can lead a new statement is left unconsumed; at the
    /// end of input the whole rest was discarded. The discarded
    /// region holds no earlier closer or leader.
    pub fn expr_synchronize(&mut self, closer: Tag)
        requires
            old(self).wf(),
        ensures
            final(self).advanced_from(old(self)),
            final(self).errors == old(self).errors,
            ({
                &&& final(self).pos > old(self).pos
                &&& final(self).tokens@[final(self).pos - 1].tag == closer
                &&& expr_sync_clean(final(self).tokens@, old(self).pos as int, final(self).pos - 1, closer)
            } || {
                &&& final(self).has_cur()
                &&& spec_expr_sync_leading(final(self).cur().tag)
                &&& expr_sync_clean(final(self).tokens@, old(self).pos as int, final(self).pos as int, closer)
            } || {
                &&& final(self).pos == final(self).tokens@.len()
                &&& expr_sync_clean(final(self).tokens@, old(self).pos as int, final(self).pos as int, closer)
            }),
        decreases old(self).tokens@.len() - old(self).pos, 10int,
    {
        loop
            invariant
                self.wf(),
                self.advanced_from(old(self)),
                self.errors == old(self).errors,
                expr_sync_clean(self.tokens@, old(self).pos as int, self.pos as int, closer),
            decreases self.tokens@.len() - self.pos,
        {
            let tag = match self.peek() {
                Some(tok) => tok.tag,
                None => { return ; },
            };
            if tag == closer {
                self.next();
                return ;
            }
            match tag {
                Tag::Let | Tag::Str | Tag::Number | Tag::Bool | Tag::Minus | Tag::Bang
                | Tag::Break | Tag::Return | Tag::LParen | Tag::LBrace | Tag::If => { return ; },
                _ => {
                    self.next();
                },
            }
        }
    }
}

} // verus!
