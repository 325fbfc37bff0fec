use vstd::prelude::*;

use crate::ast::{child_wf, node_wf, wf_node, Node, NodeBuilder, NodeChild, NodeType};
use crate::errors::{Loc, ParseError, ParseErrorKind, ParsingError};
use crate::grammar::expr::{Restrictions, Stop};
use crate::parser::Parser;
use crate::token::{Tag, Token};

verus! {

impl Parser {
    /// Parses an if-expression; the `if` keyword is already consumed.
    /// The condition is parsed under the block restriction, stopping at
    /// the `{` that opens the consequence; the alternate slot holds an
    /// else-if, an else block, or the placeholder.
    pub fn if_expr(&mut self) -> (r: Result<Node, ParsingError>)
        requires
            old(self).wf(),
        ensures
            final(self).advanced_from(old(self)),
            r is Ok ==> wf_node(r->Ok_0, NodeType::IfExpr),
            r is Err ==> final(self).errors@.len() > old(self).errors@.len(),
            crate::grammar::expr::spec_paren_atom_at(old(self).tokens@, old(self).pos as int)
                && old(self).pos + 4 < old(self).tokens@.len() && old(self).tokens@[old(self).pos
                + 3].tag == Tag::LBrace && old(self).tokens@[old(self).pos + 4].tag == Tag::RBrace
                && (old(self).pos + 5 >= old(self).tokens@.len() || old(self).tokens@[old(self).pos + 5].tag != Tag::Else) ==> r is Ok && final(self).pos == old(self).pos + 5
                && final(self).errors == old(self).errors,
        decreases old(self).tokens@.len() - old(self).pos, 50int,
    {
        let mut node = NodeBuilder::from_type(NodeType::IfExpr);

        let condition = match self.expr_bp(0, Restrictions::block(), Stop::OpenBrace) {
            Ok(c) => c,
            Err(e) => { return Err(e) },
        };
        node.add(condition);

        if self.expect_token(Tag::LBrace).is_empty() {
            return Err(ParsingError::Failed);
        }

        let consequence = match self.block_expr() {
            Ok(n) => n,
            Err(e) => { return Err(e) },
        };
        node.add(NodeChild::Node(consequence));

        if self.peek_is(Tag::Else) {
            self.next();
        } else {
            let absent = Node::null(NodeType::Any);
            let ghost gabsent = absent;
            node.add(NodeChild::Node(absent));
            let n = node.finish(false);
            proof {
                let cs = n.kids();
                assert(cs.len() == 3);
                assert(cs[0] == condition);
                assert(child_wf(condition));
                assert(child_wf(NodeChild::Node(consequence)));
                assert(node_wf(gabsent));
                assert(child_wf(NodeChild::Node(gabsent)));
                assert(node_wf(n));
            }
            return Ok(n);
        }

        let tag = match self.peek() {
            Some(tok) => tok.tag,
            None => {
                let l = self.loc(0);
                self.add_error(ParseErrorKind::UnexpectedEOF, l);
                return Err(ParsingError::Failed);
            },
        };
        let alternate: Node = if tag == Tag::If {
            self.next();
            match self.if_expr() {
                Ok(n) => n,
                Err(e) => { return Err(e) },
            }
        } else if tag == Tag::LBrace {
            self.next();
            match self.block_expr() {
                Ok(n) => n,
                Err(e) => { return Err(e) },
            }
        } else {
            let l = self.loc(1);
            self.add_error(ParseErrorKind::ExpectedIfOrBlock, l);
            return Err(ParsingError::Failed);
        };
        let ghost galt = alternate;
        node.add(NodeChild::Node(alternate));

        let n = node.finish(false);
        proof {
            let cs = n.kids();
            assert(cs.len() == 3);
            assert(cs[0] == condition);
            assert(child_wf(condition));
            assert(child_wf(NodeChild::Node(consequence)));
            assert(child_wf(NodeChild::Node(galt)));
            assert(node_wf(n));
        }
        Ok(n)
    }

    /// Parses a while-expression; the `while` keyword is already
    /// consumed. The condition is parsed under the block restriction.
    pub fn while_expr(&mut self) -> (r: Result<Node, ParsingError>)
        requires
            old(self).wf(),
        ensures
            final(self).advanced_from(old(self)),
            r is Ok ==> wf_node(r->Ok_0, NodeType::WhileExpr),
            r is Err ==> final(self).errors@.len() > old(self).errors@.len(),
            crate::grammar::expr::spec_paren_atom_at(old(self).tokens@, old(self).pos as int)
                && old(self).pos + 4 < old(self).tokens@.len() && old(self).tokens@[old(self).pos
                + 3].tag == Tag::LBrace && old(self).tokens@[old(self).pos + 4].tag == Tag::RBrace
                ==> r is Ok && final(self).pos == old(self).pos + 5 && final(self).errors == old(self).errors,
        decreases old(self).tokens@.len() - old(self).pos, 50int,
    {
        let mut node = NodeBuilder::from_type(NodeType::WhileExpr);

        let condition = match self.expr_bp(0, Restrictions::block(), Stop::OpenBrace) {
            Ok(c) => c,
            Err(e) => { return Err(e) },
        };
        node.add(condition);

        if self.expect_token(Tag::LBrace).is_empty() {
            return Err(ParsingError::Failed);
        }

        let consequence = match self.block_expr() {
            Ok(n) => n,
            Err(e) => { return Err(e) },
        };
        node.add(NodeChild::Node(consequence));

        let n = node.finish(false);
        proof {
            let cs = n.kids();
            assert(cs.len() == 2);
            assert(cs[0] == condition);
            assert(child_wf(condition));
            assert(child_wf(NodeChild::Node(consequence)));
            assert(node_wf(n));
        }
        Ok(n)
    }

    /// Parses a return-expression; the `return` keyword is already
    /// consumed. A following `;` or `}` means "no value", filled with
    /// the placeholder.
    pub fn return_expr(&mut self) -> (r: Result<Node, ParsingError>)
        requires
            old(self).wf(),
        ensures
            final(self).advanced_from(old(self)),
            r is Ok ==> wf_node(r->Ok_0, NodeType::ReturnExpr),
            r is Err ==> final(self).errors@.len() > old(self).errors@.len(),
            old(self).has_cur() && (old(self).cur().tag == Tag::Semicolon || old(self).cur().tag
                == Tag::RBrace) ==> r is Ok && final(self).pos == old(self).pos && final(self).errors == old(self).errors && crate::ast::c_absent(r->Ok_0.kids()[0]),
            !old(self).has_cur() ==> r == Result::<Node, ParsingError>::Err(ParsingError::Failed)
                && final(self).pos == old(self).pos && final(self).errors@ == old(self).errors@.push(
                ParseError {
                    kind: ParseErrorKind::ExpectedExprOrSemi,
                    location: old(self).spec_loc(0),
                },
            ),
            crate::grammar::expr::spec_atom_expr_at(
                old(self).tokens@,
                old(self).pos as int,
                crate::grammar::expr::Stop::Nothing,
            ) ==> r is Ok && final(self).pos == old(self).pos + 1 && final(self).errors == old(self).errors && r->Ok_0.kids()[0]->Token_0@ == old(self).cur()@,
        decreases old(self).tokens@.len() - old(self).pos, 50int,
    {
        let mut node = NodeBuilder::from_type(NodeType::ReturnExpr);
        let tag = match self.peek() {
            Some(tok) => tok.tag,
            None => {
                let l = self.loc(0);
                self.add_error(ParseErrorKind::ExpectedExprOrSemi, l);
                return Err(ParsingError::Failed);
            },
        };
        let child: NodeChild;
        if tag == Tag::Semicolon || tag == Tag::RBrace {
            child = NodeChild::Node(Node::null(NodeType::Any));
        } else {
            let value = match self.expr() {
                Ok(c) => c,
                Err(e) => { return Err(e) },
            };
            child = value;
        }
        let ghost gchild = child;
        node.add(child);
        let n = node.finish(false);
        proof {
            let cs = n.kids();
            assert(cs.len() == 1);
            assert(cs[0] == gchild);
            assert(child_wf(gchild));
            assert(node_wf(n));
        }
        Ok(n)
    }

    /// Parses a break-expression; the `break` keyword is already
    /// consumed. A following `;` or `}` means "no value".
    pub fn break_expr(&mut self) -> (r: Result<Node, ParsingError>)
        requires
            old(self).wf(),
        ensures
            final(self).advanced_from(old(self)),
            r is Ok ==> wf_node(r->Ok_0, NodeType::BreakExpr),
            r is Err ==> final(self).errors@.len() > old(self).errors@.len(),
            old(self).has_cur() && (old(self).cur().tag == Tag::Semicolon || old(self).cur().tag
                == Tag::RBrace) ==> r is Ok && final(self).pos == old(self).pos && final(self).errors == old(self).errors && crate::ast::c_absent(r->Ok_0.kids()[0]),
            !old(self).has_cur() ==> r == Result::<Node, ParsingError>::Err(ParsingError::Failed)
                && final(self).pos == old(self).pos && final(self).errors@ == old(self).errors@.push(
                ParseError {
                    kind: ParseErrorKind::ExpectedExprOrSemi,
                    location: old(self).spec_loc(0),
                },
            ),
            crate::grammar::expr::spec_atom_expr_at(
                old(self).tokens@,
                old(self).pos as int,
                crate::grammar::expr::Stop::Nothing,
            ) ==> r is Ok && final(self).pos == old(self).pos + 1 && final(self).errors == old(self).errors && r->Ok_0.kids()[0]->Token_0@ == old(self).cur()@,
        decreases old(self).tokens@.len() - old(self).pos, 50int,
    {
        let mut node = NodeBuilder::from_type(NodeType::BreakExpr);
        let tag = match self.peek() {
            Some(tok) => tok.tag,
            None => {
                let l = self.loc(0);
                self.add_error(ParseErrorKind::ExpectedExprOrSemi, l);
                return Err(ParsingError::Failed);
            },
        };
        let child: NodeChild;
        if tag == Tag::Semicolon || tag == Tag::RBrace {
            child = NodeChild::Node(Node::null(NodeType::Any));
        } else {
            let value = match self.expr() {
                Ok(c) => c,
                Err(e) => { return Err(e) },
            };
            child = value;
        }
        let ghost gchild = child;
        node.add(child);
        let n = node.finish(false);
        proof {
            let cs = n.kids();
            assert(cs.len() == 1);
            assert(cs[0] == gchild);
            assert(child_wf(gchild));
            assert(node_wf(n));
        }
        Ok(n)
    }

    /// Parses a continue-expression; the `continue` keyword is already
    /// consumed. An identifier directly after it is taken as the
    /// label; otherwise the label slot holds the empty token. This
    /// never fails and reports nothing: the label is optional.
    pub fn continue_expr(&mut self) -> (r: Result<Node, ParsingError>)
        requires
            old(self).wf(),
        ensures
            final(self).advanced_from(old(self)),
            final(self).errors == old(self).errors,
            r is Ok,
            r is Ok ==> wf_node(r->Ok_0, NodeType::ContinueExpr),
            old(self).has_cur() && old(self).cur().tag == Tag::Ident ==> final(self).pos == old(self).pos + 1 && r->Ok_0.kids()[0]->Token_0@ == old(self).cur()@,
            !(old(self).has_cur() && old(self).cur().tag == Tag::Ident) ==> final(self).pos == old(self).pos && r->Ok_0.kids()[0]->Token_0.spec_is_empty(),
        decreases old(self).tokens@.len() - old(self).pos, 50int,
    {
        let mut node = NodeBuilder::from_type(NodeType::ContinueExpr);
        let label = match self.eat_token(Tag::Ident) {
            Some(t) => t,
            None => Token::empty(),
        };
        let ghost glabel = label;
        node.add(NodeChild::Token(label));
        let n = node.finish(false);
        proof {
            let cs = n.kids();
            assert(cs.len() == 1);
            assert(cs[0] == NodeChild::Token(glabel));
            assert(child_wf(NodeChild::Token(glabel)));
            assert(node_wf(n));
        }
        Ok(n)
    }
}

} // verus!
