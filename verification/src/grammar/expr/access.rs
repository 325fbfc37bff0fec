use vstd::prelude::*;

use crate::ast::{child_wf, node_wf, wf_node, Node, NodeBuilder, NodeChild, NodeType};
use crate::errors::{ParseError, ParseErrorKind, ParsingError};
use crate::grammar::expr::Stop;
use crate::parser::Parser;
use crate::token::{Tag, Token};

verus! {

impl Parser {
    /// Parses `ident [ index ]`; the identifier and the opening
    /// bracket are already consumed.
    pub fn index_expr(&mut self, ident: Token) -> (r: Result<Node, ParsingError>)
        requires
            old(self).wf(),
            ident.tag == Tag::Ident,
            !ident.spec_is_empty(),
        ensures
            final(self).advanced_from(old(self)),
            r is Ok ==> wf_node(r->Ok_0, NodeType::IndexExpr),
            r is Ok ==> r->Ok_0.kids()[0] == NodeChild::Token(ident),
            r is Err ==> final(self).errors@.len() > old(self).errors@.len(),
        decreases old(self).tokens@.len() - old(self).pos, 50int,
    {
        let mut node = NodeBuilder::from_type(NodeType::IndexExpr);
        node.add(NodeChild::Token(ident));
        let index = match self.expr_with_stop(Stop::CloseBracket) {
            Ok(c) => c,
            Err(e) => { return Err(e) },
        };
        node.add(index);

        if self.expect_token(Tag::RBracket).is_empty() {
            self.expr_synchronize(Tag::RBracket);
            Err(ParsingError::Failed)
        } else {
            let n = node.finish(false);
            proof {
                let cs = n.kids();
                assert(cs.len() == 2);
                assert(cs[1] == index);
                assert(child_wf(NodeChild::Token(ident)));
                assert(child_wf(index));
                assert(node_wf(n));
            }
            Ok(n)
        }
    }

    /// Parses `ident . field`; the identifier and the dot are already
    /// consumed.
    pub fn field_access_expr(&mut self, ident: Token) -> (r: Result<Node, ParsingError>)
        requires
            old(self).wf(),
            ident.tag == Tag::Ident,
            !ident.spec_is_empty(),
        ensures
            final(self).advanced_from(old(self)),
            r is Ok ==> wf_node(r->Ok_0, NodeType::FieldAccessExpr),
            r is Ok ==> r->Ok_0.kids()[0] == NodeChild::Token(ident),
            old(self).has_cur() && old(self).cur().tag == Tag::Ident ==> r is Ok && final(self).pos == old(self).pos + 1 && final(self).errors == old(self).errors
                && r->Ok_0.kids()[1]->Token_0@ == old(self).cur()@,
            !(old(self).has_cur() && old(self).cur().tag == Tag::Ident) ==> r is Err
                && final(self).pos == old(self).pos && final(self).errors@ == old(self).errors@.push(
                ParseError {
                    kind: ParseErrorKind::Expected(Tag::Ident),
                    location: old(self).spec_loc(1),
                },
            ),
        decreases old(self).tokens@.len() - old(self).pos, 50int,
    {
        let mut node = NodeBuilder::from_type(NodeType::FieldAccessExpr);
        node.add(NodeChild::Token(ident));

        let field_name = self.expect_token(Tag::Ident);
        if field_name.is_empty() {
            return Err(ParsingError::Failed);
        }
        node.add(NodeChild::Token(field_name));
        let n = node.finish(false);
        proof {
            let cs = n.kids();
            assert(cs.len() == 2);
            assert(child_wf(NodeChild::Token(ident)));
            assert(child_wf(NodeChild::Token(field_name)));
            assert(node_wf(n));
        }
        Ok(n)
    }
}

} // verus!
