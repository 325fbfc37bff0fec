use vstd::prelude::*;

use crate::ast::{elem_ok, child_wf, node_wf, Node, NodeBuilder, NodeChild, NodeType};
use crate::errors::{Loc, ParseErrorKind, ParsingError};
use crate::grammar::expr::Stop;
use crate::parser::Parser;
use crate::token::Tag;

verus! {

impl Parser {
    /// Parses `[ element, ... ]`; the opening bracket is already
    /// consumed. Each element may legally end at a comma or the
    /// closing bracket.
    pub fn array_expr(&mut self) -> (r: Result<Node, ParsingError>)
        requires
            old(self).wf(),
        ensures
            final(self).advanced_from(old(self)),
            r is Ok ==> r->Ok_0.kind.0 == NodeType::ArrayExpr && node_wf(r->Ok_0),
            r is Err ==> final(self).errors@.len() > old(self).errors@.len(),
            crate::grammar::expr::spec_atom_expr_at(
                old(self).tokens@,
                old(self).pos as int,
                Stop::CloseBracketOrComma,
            ) && old(self).tokens@[old(self).pos + 1].tag == Tag::RBracket ==> r is Ok && final(self).pos == old(self).pos + 2 && final(self).errors == old(self).errors
                && r->Ok_0.kids().len() == 1 && r->Ok_0.kids()[0]->Token_0@ == old(self).cur()@,
        decreases old(self).tokens@.len() - old(self).pos, 50int,
    {
        let mut array = NodeBuilder::from_type(NodeType::ArrayExpr);

        if self.peek_is(Tag::RBracket) {
            self.next();
            let n = array.finish(false);
            return Ok(n);
        }

        loop
            invariant_except_break
                crate::grammar::expr::spec_atom_expr_at(
                    old(self).tokens@,
                    old(self).pos as int,
                    Stop::CloseBracketOrComma,
                ) && old(self).tokens@[old(self).pos + 1].tag == Tag::RBracket ==> self.pos
                    == old(self).pos && array.children@.len() == 0 && self.errors == old(self).errors,
            invariant
                self.wf(),
                self.advanced_from(old(self)),
                array.kind.0 == NodeType::ArrayExpr,
                !(old(self).has_cur() && old(self).cur().tag == Tag::RBracket),
                forall|i: int|
                    0 <= i < array.children@.len() ==> elem_ok(
                        NodeType::ArrayExpr,
                        #[trigger] array.children@[i],
                    ) && child_wf(array.children@[i]),
            ensures
                crate::grammar::expr::spec_atom_expr_at(
                    old(self).tokens@,
                    old(self).pos as int,
                    Stop::CloseBracketOrComma,
                ) && old(self).tokens@[old(self).pos + 1].tag == Tag::RBracket ==> self.pos
                    == old(self).pos + 2 && array.children@.len() == 1 && self.errors == old(self).errors && array.children@[0]->Token_0@ == old(self).cur()@,
            decreases self.tokens@.len() - self.pos,
        {
            let expr = match self.expr_with_stop(Stop::CloseBracketOrComma) {
                Ok(c) => c,
                Err(e) => { return Err(e) },
            };
            array.add(expr);

            let tag = match self.peek() {
                Some(tok) => tok.tag,
                None => {
                    let l = self.loc(0);
                    self.add_error(ParseErrorKind::ExpectedArrayDelimeter, l);
                    return Err(ParsingError::Failed);
                },
            };
            if tag == Tag::Comma {
                self.next();
            } else if tag == Tag::RBracket {
                self.next();
                break ;
            } else {
                let l = match self.peek() {
                    Some(tok) => Loc::from_token(tok),
                    None => unreached(),
                };
                self.add_error(ParseErrorKind::ExpectedArrayDelimeter, l);
                return Err(ParsingError::Failed);
            }
        }
        let n = array.finish(false);
        proof {
            assert(node_wf(n));
        }
        Ok(n)
    }
}

} // verus!
