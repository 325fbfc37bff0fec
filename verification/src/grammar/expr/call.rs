use vstd::prelude::*;

use crate::ast::{elem_ok, child_wf, node_wf, wf_node, Node, NodeBuilder, NodeChild, NodeType};
use crate::errors::{Loc, ParseErrorKind, ParsingError};
use crate::grammar::expr::Stop;
use crate::parser::Parser;
use crate::token::{Tag, Token};

verus! {

impl Parser {
    /// Parses `ident ( arg, ... )`; the identifier and the opening
    /// parenthesis are already consumed. Each argument may legally end
    /// at a comma or the closing parenthesis.
    pub fn call_expr(&mut self, ident: Token) -> (r: Result<Node, ParsingError>)
        requires
            old(self).wf(),
            ident.tag == Tag::Ident,
            !ident.spec_is_empty(),
        ensures
            final(self).advanced_from(old(self)),
            r is Ok ==> wf_node(r->Ok_0, NodeType::CallExpr),
            r is Ok ==> r->Ok_0.kids()[0] == NodeChild::Token(ident),
            old(self).has_cur() && old(self).cur().tag == Tag::RParen ==> r is Ok && final(self).pos == old(self).pos + 1 && final(self).errors == old(self).errors
                && r->Ok_0.kids()[1]->Node_0.kids().len() == 0,
            crate::grammar::expr::spec_atom_expr_at(
                old(self).tokens@,
                old(self).pos as int,
                Stop::CloseParenOrComma,
            ) && old(self).tokens@[old(self).pos + 1].tag == Tag::RParen ==> r is Ok && final(self).pos == old(self).pos + 2 && final(self).errors == old(self).errors
                && r->Ok_0.kids()[1]->Node_0.kids().len() == 1
                && r->Ok_0.kids()[1]->Node_0.kids()[0]->Token_0@ == old(self).cur()@,
            r is Err ==> final(self).errors@.len() > old(self).errors@.len(),
        decreases old(self).tokens@.len() - old(self).pos, 50int,
    {
        let mut node = NodeBuilder::from_type(NodeType::CallExpr);
        let mut args = NodeBuilder::from_type(NodeType::ArgList);

        node.add(NodeChild::Token(ident));

        if self.peek_is(Tag::RParen) {
            self.next();
        } else {
            loop
                invariant_except_break
                    crate::grammar::expr::spec_atom_expr_at(
                        old(self).tokens@,
                        old(self).pos as int,
                        Stop::CloseParenOrComma,
                    ) && old(self).tokens@[old(self).pos + 1].tag == Tag::RParen ==> self.pos
                        == old(self).pos && args.children@.len() == 0 && self.errors == old(self).errors,
                invariant
                    self.wf(),
                    self.advanced_from(old(self)),
                    !(old(self).has_cur() && old(self).cur().tag == Tag::RParen),
                    args.kind.0 == NodeType::ArgList,
                    node.kind.0 == NodeType::CallExpr,
                    node.children@.len() == 1,
                    node.children@[0] == NodeChild::Token(ident),
                    forall|i: int|
                        0 <= i < args.children@.len() ==> elem_ok(
                            NodeType::ArgList,
                            #[trigger] args.children@[i],
                        ) && child_wf(args.children@[i]),
                ensures
                    crate::grammar::expr::spec_atom_expr_at(
                        old(self).tokens@,
                        old(self).pos as int,
                        Stop::CloseParenOrComma,
                    ) && old(self).tokens@[old(self).pos + 1].tag == Tag::RParen ==> self.pos
                        == old(self).pos + 2 && args.children@.len() == 1
                        && args.children@[0]->Token_0@ == old(self).cur()@ && self.errors == old(self).errors,
                decreases self.tokens@.len() - self.pos,
            {
                let arg = match self.expr_with_stop(Stop::CloseParenOrComma) {
                    Ok(c) => c,
                    Err(e) => { return Err(e) },
                };
                args.add(arg);

                let tag = match self.peek() {
                    Some(tok) => tok.tag,
                    None => {
                        let l = self.loc(0);
                        self.add_error(ParseErrorKind::Expected(Tag::RParen), l);
                        return Err(ParsingError::Failed);
                    },
                };
                if tag == Tag::Comma {
                    self.next();
                } else if tag == Tag::RParen {
                    self.next();
                    break ;
                } else {
                    let l = match self.peek() {
                        Some(tok) => Loc::from_token(tok),
                        None => unreached(),
                    };
                    self.add_error(ParseErrorKind::Expected(Tag::RParen), l);
                    return Err(ParsingError::Failed);
                }
            }
        }

        let args_node = args.finish(false);
        let ghost gargs = args_node;
        proof {
            assert(node_wf(args_node));
        }
        node.add(NodeChild::Node(args_node));
        let n = node.finish(false);
        proof {
            let cs = n.kids();
            assert(cs.len() == 2);
            assert(child_wf(NodeChild::Token(ident)));
            assert(child_wf(NodeChild::Node(gargs)));
            assert(node_wf(n));
        }
        Ok(n)
    }
}

} // verus!
