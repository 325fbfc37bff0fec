use vstd::prelude::*;

use crate::ast::{child_wf, node_wf, wf_node, Node, NodeBuilder, NodeChild, NodeType};
use crate::errors::ParsingError;
use crate::parser::Parser;
use crate::token::{Tag, Token};

verus! {

impl Parser {
    /// Parses `ident = value`; the identifier and the equals sign are
    /// already consumed.
    pub fn assign_expr(&mut self, ident: Token) -> (r: Result<Node, ParsingError>)
        requires
            old(self).wf(),
            ident.tag == Tag::Ident,
            !ident.spec_is_empty(),
        ensures
            final(self).advanced_from(old(self)),
            r is Ok ==> wf_node(r->Ok_0, NodeType::AssignExpr),
            r is Ok ==> r->Ok_0.kids()[0] == NodeChild::Token(ident),
            crate::grammar::expr::spec_atom_expr_at(
                old(self).tokens@,
                old(self).pos as int,
                crate::grammar::expr::Stop::Nothing,
            ) ==> r is Ok && final(self).pos == old(self).pos + 1 && final(self).errors == old(self).errors && r->Ok_0.kids()[1]->Token_0@ == old(self).cur()@,
            r is Err ==> final(self).errors@.len() > old(self).errors@.len(),
        decreases old(self).tokens@.len() - old(self).pos, 50int,
    {
        let mut node = NodeBuilder::from_type(NodeType::AssignExpr);
        node.add(NodeChild::Token(ident));
        let value = match self.expr() {
            Ok(c) => c,
            Err(e) => { return Err(e) },
        };
        node.add(value);

        let n = node.finish(false);
        proof {
            let cs = n.kids();
            assert(cs.len() == 2);
            assert(cs[1] == value);
            assert(child_wf(NodeChild::Token(ident)));
            assert(child_wf(value));
            assert(node_wf(n));
        }
        Ok(n)
    }
}

} // verus!
