use vstd::prelude::*;

use crate::ast::{c_stmt, child_wf, node_wf, wf_node, Node, NodeBuilder, NodeChild, NodeType};
use crate::errors::{Loc, ParseError, ParseErrorKind, ParsingError};
use crate::parser::Parser;
use crate::token::{Tag, Token};

verus! {

/// Where statement synchronization came to rest.
pub enum SyncStatus {
    /// A semicolon was found and consumed.
    FoundSemi,
    /// A token that can lead a new statement was found, unconsumed.
    FoundLeading,
    /// The input ran out.
    EOF,
}

/// The tokens at which statement synchronization stops without
/// consuming: the statement leaders, plus the closing brace. The
/// closing brace is not a statement leader in the strict sense, but
/// resting at it (instead of discarding it) keeps recovery inside the
/// enclosing block, so the block's own parse can still close it; a
/// panic-mode sweep that consumed the `}` would silently swallow the
/// rest of the surrounding block.
pub open spec fn spec_stmt_leading(tag: Tag) -> bool {
    ||| tag == Tag::Let
    ||| tag == Tag::Break
    ||| tag == Tag::Return
    ||| tag == Tag::If
    ||| tag == Tag::While
    ||| tag == Tag::Ident
    ||| tag == Tag::RBrace
}

#[verifier::when_used_as_spec(spec_stmt_leading)]
pub fn stmt_leading(tag: Tag) -> (r: bool)
    ensures
        r == spec_stmt_leading(tag),
{
    match tag {
        Tag::Let | Tag::Break | Tag::Return | Tag::If | Tag::While | Tag::Ident | Tag::RBrace
            => true,
        _ => false,
    }
}

/// The region `[lo, hi)` of the token stream holds neither a
/// semicolon checkpoint nor a statement leader: exactly what a
/// statement synchronization sweep may discard.
pub open spec fn stmt_sync_clean(toks: Seq<Token>, lo: int, hi: int) -> bool {
    forall|j: int|
        lo <= j < hi ==> #[trigger] toks[j].tag != Tag::Semicolon && !spec_stmt_leading(
            toks[j].tag,
        )
}

impl Parser {
    /// Parses one statement: a variable declaration, an empty
    /// statement (a lone semicolon), or an expression statement.
    pub fn statement(&mut self) -> (r: Result<NodeChild, ParsingError>)
        requires
            old(self).wf(),
            old(self).has_cur(),
        ensures
            final(self).advanced_from(old(self)),
            final(self).pos > old(self).pos,
            r is Ok ==> c_stmt(r->Ok_0) && child_wf(r->Ok_0),
            r is Err ==> final(self).errors@.len() > old(self).errors@.len(),
            old(self).cur().tag == Tag::Semicolon ==> r is Ok && final(self).pos == old(self).pos
                + 1 && final(self).errors == old(self).errors && r->Ok_0 is Token
                && r->Ok_0->Token_0@ == old(self).cur()@,
        decreases old(self).tokens@.len() - old(self).pos, 60int,
    {
        let tag = match self.peek() {
            Some(tok) => tok.tag,
            None => unreached(),
        };

        if tag == Tag::Let {
            match self.var_decl() {
                Ok(n) => Ok(NodeChild::Node(n)),
                Err(e) => Err(e),
            }
        } else if tag == Tag::Semicolon {
            let t = match self.next() {
                Some(t) => t,
                None => unreached(),
            };
            Ok(NodeChild::Token(t))
        } else {
            match self.expr_stmt() {
                Ok(n) => Ok(NodeChild::Node(n)),
                Err(e) => Err(e),
            }
        }
    }

    /// Parses an expression statement. Control-flow expressions take
    /// an optional trailing semicolon; any other expression requires
    /// one.
    pub fn expr_stmt(&mut self) -> (r: Result<Node, ParsingError>)
        requires
            old(self).wf(),
        ensures
            final(self).advanced_from(old(self)),
            old(self).has_cur() ==> final(self).pos > old(self).pos,
            r is Ok ==> wf_node(r->Ok_0, NodeType::ExprStmt),
            r is Err ==> final(self).errors@.len() > old(self).errors@.len(),
            crate::grammar::expr::spec_atom_expr_at(
                old(self).tokens@,
                old(self).pos as int,
                crate::grammar::expr::Stop::Nothing,
            ) && old(self).tokens@[old(self).pos + 1].tag == Tag::Semicolon ==> r is Ok && final(self).pos == old(self).pos + 2 && final(self).errors == old(self).errors
                && r->Ok_0.kids()[0]->Token_0@ == old(self).cur()@,
        decreases old(self).tokens@.len() - old(self).pos, 50int,
    {
        let mut node = NodeBuilder::from_type(NodeType::ExprStmt);

        let expr = match self.expr() {
            Ok(c) => c,
            Err(ParsingError::Failed) => {
                self.stmt_synchronize();
                return Err(ParsingError::Failed);
            },
            Err(e) => { return Err(e) },
        };

        let block_like = match &expr {
            NodeChild::Node(n) => match n.kind.0 {
                NodeType::IfExpr | NodeType::WhileExpr | NodeType::BlockExpr => true,
                _ => false,
            },
            NodeChild::Token(_) => false,
        };
        if block_like {
            self.lazy_eat(Tag::Semicolon);
        } else {
            self.expect_token(Tag::Semicolon);
        }

        let ghost gexpr = expr;
        node.add(expr);
        let n = node.finish(false);
        proof {
            let cs = n.kids();
            assert(cs.len() == 1);
            assert(cs[0] == gexpr);
            assert(child_wf(gexpr));
            assert(node_wf(n));
        }
        Ok(n)
    }

    /// Parses `let name [: type] [= value] ;`. Missing optional parts
    /// are filled with the placeholder; a missing semicolon reports a
    /// diagnostic and synchronizes.
    pub fn var_decl(&mut self) -> (r: Result<Node, ParsingError>)
        requires
            old(self).wf(),
            old(self).has_cur(),
            old(self).cur().tag == Tag::Let,
        ensures
            final(self).advanced_from(old(self)),
            final(self).pos > old(self).pos,
            r is Ok ==> wf_node(r->Ok_0, NodeType::VarDecl),
            r is Err ==> final(self).errors@.len() > old(self).errors@.len(),
            old(self).pos + 2 < old(self).tokens@.len() && old(self).tokens@[old(self).pos
                + 1].tag == Tag::Ident && old(self).tokens@[old(self).pos + 2].tag
                == Tag::Semicolon ==> r is Ok && final(self).pos == old(self).pos + 3
                && r->Ok_0.kids()[0]->Token_0@ == old(self).tokens@[old(self).pos + 1]@
                && crate::ast::c_absent(r->Ok_0.kids()[1]) && crate::ast::c_absent(
                r->Ok_0.kids()[2],
            ) && final(self).errors@ == old(self).errors@.push(
                ParseError {
                    kind: ParseErrorKind::Expected(Tag::Equal),
                    location: (Loc {
                        start: old(self).tokens@[old(self).pos + 2].pos,
                        len: 1,
                        line: old(self).tokens@[old(self).pos + 2].line,
                    }),
                },
            ),
        decreases old(self).tokens@.len() - old(self).pos, 50int,
    {
        self.next();  // the `let` keyword

        let mut node = NodeBuilder::from_type(NodeType::VarDecl);

        let ident = self.expect_token(Tag::Ident);
        node.add(NodeChild::Token(ident));

        let ty_child: NodeChild;
        if self.peek_is(Tag::Colon) {
            self.next();
            ty_child = match self.type_expr() {
                Ok(c) => c,
                Err(e) => { return Err(e) },
            };
        } else {
            ty_child = NodeChild::Node(Node::null(NodeType::Any));
        }
        let ghost gty = ty_child;
        node.add(ty_child);

        let val_child: NodeChild;
        if !self.expect_token(Tag::Equal).is_empty() {
            val_child = match self.expr() {
                Ok(c) => c,
                Err(ParsingError::Failed) => {
                    self.handle_synchronize();
                    return Err(ParsingError::Failed);
                },
                Err(e) => { return Err(e) },
            };
        } else {
            val_child = NodeChild::Node(Node::null(NodeType::Any));
        }
        let ghost gval = val_child;
        node.add(val_child);

        if self.peek_is(Tag::Semicolon) {
            self.next();
            let n = node.finish(false);
            proof {
                let cs = n.kids();
                assert(cs.len() == 3);
                assert(child_wf(NodeChild::Token(ident)));
                assert(child_wf(gty));
                assert(child_wf(gval));
                assert(node_wf(n));
            }
            return Ok(n);
        }

        self.handle_synchronize();
        Err(ParsingError::Failed)
    }

    /// Statement synchronization plus its reporting: a found
    /// semicolon needs no further diagnostic; a leading token means
    /// the semicolon was missing; the end of input is reported as
    /// such. Exactly one of the three sweep outcomes holds.
    pub fn handle_synchronize(&mut self)
        requires
            old(self).wf(),
        ensures
            final(self).advanced_from(old(self)),
            ({
                // Stopped just past the first semicolon.
                &&& final(self).pos > old(self).pos
                &&& final(self).tokens@[final(self).pos - 1].tag == Tag::Semicolon
                &&& stmt_sync_clean(final(self).tokens@, old(self).pos as int, final(self).pos - 1)
                &&& final(self).errors == old(self).errors
            } || {
                // Resting, unconsumed, at the first statement leader.
                &&& final(self).has_cur()
                &&& spec_stmt_leading(final(self).cur().tag)
                &&& stmt_sync_clean(final(self).tokens@, old(self).pos as int, final(self).pos as int)
                &&& final(self).errors@ == old(self).errors@.push(
                    ParseError {
                        kind: ParseErrorKind::ExpectedSemi,
                        location: final(self).spec_loc(1),
                    },
                )
            } || {
                // The input ran out.
                &&& final(self).pos == final(self).tokens@.len()
                &&& stmt_sync_clean(final(self).tokens@, old(self).pos as int, final(self).pos as int)
                &&& final(self).errors@ == old(self).errors@.push(
                    ParseError {
                        kind: ParseErrorKind::UnexpectedEOF,
                        location: final(self).spec_loc(0),
                    },
                )
            }),
        decreases old(self).tokens@.len() - old(self).pos, 15int,
    {
        match self.stmt_synchronize() {
            SyncStatus::FoundSemi => {},
            SyncStatus::FoundLeading => {
                let l = self.loc(1);
                self.add_error(ParseErrorKind::ExpectedSemi, l);
            },
            SyncStatus::EOF => {
                let l = self.loc(0);
                self.add_error(ParseErrorKind::UnexpectedEOF, l);
            },
        }
    }

    /// Panic-mode recovery for statements: discards every token up to
    /// the first checkpoint. A semicolon is the checkpoint proper and
    /// is consumed; a token that can lead the next statement is left
    /// unconsumed, so the caller's next attempt sees it; otherwise the
    /// whole rest of the input is discarded. The discarded region
    /// holds no earlier checkpoint or leader.
    pub fn stmt_synchronize(&mut self) -> (r: SyncStatus)
        requires
            old(self).wf(),
        ensures
            final(self).advanced_from(old(self)),
            final(self).errors == old(self).errors,
            r is FoundSemi ==> final(self).pos > old(self).pos && final(self).tokens@[final(self).pos - 1].tag == Tag::Semicolon && stmt_sync_clean(
                final(self).tokens@,
                old(self).pos as int,
                final(self).pos - 1,
            ),
            r is FoundLeading ==> final(self).has_cur() && spec_stmt_leading(
                final(self).cur().tag,
            ) && stmt_sync_clean(
                final(self).tokens@,
                old(self).pos as int,
                final(self).pos as int,
            ),
            r is EOF ==> final(self).pos == final(self).tokens@.len() && stmt_sync_clean(
                final(self).tokens@,
                old(self).pos as int,
                final(self).pos as int,
            ),
            old(self).has_cur() && spec_stmt_leading(old(self).cur().tag) ==> r is FoundLeading
                && final(self).pos == old(self).pos,
            !old(self).has_cur() ==> r is EOF,
        decreases old(self).tokens@.len() - old(self).pos, 10int,
    {
        loop
            invariant
                self.wf(),
                self.advanced_from(old(self)),
                self.errors == old(self).errors,
                stmt_sync_clean(self.tokens@, old(self).pos as int, self.pos as int),
                old(self).has_cur() && spec_stmt_leading(old(self).cur().tag) ==> self.pos == old(self).pos,
                !old(self).has_cur() ==> self.pos == old(self).pos,
            decreases self.tokens@.len() - self.pos,
        {
            let tag = match self.peek() {
                Some(tok) => tok.tag,
                None => { return SyncStatus::EOF },
            };
            if tag == Tag::Semicolon {
                self.next();
                return SyncStatus::FoundSemi;
            }
            if stmt_leading(tag) {
                return SyncStatus::FoundLeading;
            }
            self.next();
        }
    }
}

} // verus!
