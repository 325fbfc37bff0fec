use vstd::prelude::*;

use crate::ast::{child_wf, node_wf, wf_node, wf_type_child, Node, NodeBuilder, NodeChild, NodeType};
use crate::errors::{Loc, ParseError, ParseErrorKind, ParsingError};
use crate::parser::Parser;
use crate::token::Tag;

verus! {

/// The parenthesized named-type pattern `( Ident )`: the type parser
/// owes a group node wrapping exactly that identifier.
pub open spec fn spec_paren_type_at(toks: Seq<crate::token::Token>, i: int) -> bool {
    &&& 0 <= i
    &&& i + 2 < toks.len()
    &&& toks[i].tag == Tag::LParen
    &&& toks[i + 1].tag == Tag::Ident
    &&& toks[i + 2].tag == Tag::RParen
}

/// The array-type pattern `[ Ident ; Number ]`: the type parser owes
/// an array-type node of exactly that element name and length.
pub open spec fn spec_array_type_at(toks: Seq<crate::token::Token>, i: int) -> bool {
    &&& 0 <= i
    &&& i + 4 < toks.len()
    &&& toks[i].tag == Tag::LBracket
    &&& toks[i + 1].tag == Tag::Ident
    &&& toks[i + 2].tag == Tag::Semicolon
    &&& toks[i + 3].tag == Tag::Number
    &&& toks[i + 4].tag == Tag::RBracket
}

impl Parser {
    /// Parses a type expression: an array type `[T; N]`, a
    /// parenthesized type, or a plain named type.
    pub fn type_expr(&mut self) -> (r: Result<NodeChild, ParsingError>)
        requires
            old(self).wf(),
        ensures
            final(self).advanced_from(old(self)),
            r is Ok ==> wf_type_child(r->Ok_0) && final(self).pos > old(self).pos,
            r is Err ==> final(self).errors@.len() > old(self).errors@.len(),
            r is Err ==> r->Err_0 is Failed,
            old(self).has_cur() && old(self).cur().tag == Tag::Ident ==> r is Ok && final(self).pos
                == old(self).pos + 1 && final(self).errors == old(self).errors && r->Ok_0 is Token
                && r->Ok_0->Token_0@ == old(self).cur()@,
            old(self).has_cur() && !(old(self).cur().tag == Tag::Ident || old(self).cur().tag
                == Tag::LBracket || old(self).cur().tag == Tag::LParen) ==> r is Err && final(self).pos == old(self).pos && final(self).errors@ == old(self).errors@.push(
                ParseError { kind: ParseErrorKind::ExpectedType, location: old(self).spec_loc(0) },
            ),
            !old(self).has_cur() ==> r is Err && final(self).pos == old(self).pos && final(self).errors@ == old(self).errors@.push(
                ParseError { kind: ParseErrorKind::ExpectedType, location: old(self).spec_loc(0) },
            ),
            spec_paren_type_at(old(self).tokens@, old(self).pos as int) ==> r is Ok && final(self).pos == old(self).pos + 3 && final(self).errors == old(self).errors
                && r->Ok_0 is Node && r->Ok_0->Node_0.kind.0 == NodeType::GroupType
                && r->Ok_0->Node_0.kids()[0]->Token_0@ == old(self).tokens@[old(self).pos + 1]@,
            spec_array_type_at(old(self).tokens@, old(self).pos as int) ==> r is Ok && final(self).pos == old(self).pos + 5 && final(self).errors == old(self).errors
                && r->Ok_0 is Node && r->Ok_0->Node_0.kind.0 == NodeType::ArrayType
                && r->Ok_0->Node_0.kids()[0]->Token_0@ == old(self).tokens@[old(self).pos + 1]@
                && r->Ok_0->Node_0.kids()[1]->Token_0@ == old(self).tokens@[old(self).pos + 3]@,
        decreases old(self).tokens@.len() - old(self).pos, 25int,
    {
        let tag = match self.peek() {
            Some(tok) => tok.tag,
            None => {
                let l = self.loc(0);
                self.add_error(ParseErrorKind::ExpectedType, l);
                return Err(ParsingError::Failed);
            },
        };
        if tag == Tag::LBracket {
            self.next();
            match self.array_type() {
                Ok(n) => Ok(NodeChild::Node(n)),
                Err(e) => Err(e),
            }
        } else if tag == Tag::LParen {
            self.next();
            let mut node = NodeBuilder::from_type(NodeType::GroupType);
            let inner = match self.type_expr() {
                Ok(c) => c,
                Err(e) => { return Err(e) },
            };
            node.add(inner);
            if self.expect_token(Tag::RParen).is_empty() {
                Err(ParsingError::Failed)
            } else {
                let n = node.finish(false);
                proof {
                    let cs = n.kids();
                    assert(cs.len() == 1);
                    assert(cs[0] == inner);
                    assert(child_wf(inner));
                    assert(node_wf(n));
                }
                Ok(NodeChild::Node(n))
            }
        } else if tag == Tag::Ident {
            let t = match self.next() {
                Some(t) => t,
                None => unreached(),
            };
            Ok(NodeChild::Token(t))
        } else {
            let l = self.loc(0);
            self.add_error(ParseErrorKind::ExpectedType, l);
            Err(ParsingError::Failed)
        }
    }

    /// Parses an array type `[element_type ; length]`; the opening
    /// bracket is already consumed. A missing length or delimiter is
    /// reported and stood in for rather than aborting.
    pub fn array_type(&mut self) -> (r: Result<Node, ParsingError>)
        requires
            old(self).wf(),
        ensures
            final(self).advanced_from(old(self)),
            r is Ok ==> wf_node(r->Ok_0, NodeType::ArrayType),
            r is Err ==> final(self).errors@.len() > old(self).errors@.len(),
            r is Err ==> r->Err_0 is Failed,
            old(self).has_cur() && old(self).cur().tag == Tag::Ident ==> r is Ok,
            old(self).pos + 3 < old(self).tokens@.len() && old(self).tokens@[old(self).pos as int].tag
                == Tag::Ident && old(self).tokens@[old(self).pos + 1].tag == Tag::Semicolon
                && old(self).tokens@[old(self).pos + 2].tag == Tag::Number && old(self).tokens@[old(self).pos + 3].tag == Tag::RBracket ==> r is Ok && final(self).pos == old(self).pos + 4 && final(self).errors == old(self).errors
                && r->Ok_0.kids()[0]->Token_0@ == old(self).tokens@[old(self).pos as int]@
                && r->Ok_0.kids()[1]->Token_0@ == old(self).tokens@[old(self).pos + 2]@,
            old(self).pos + 2 < old(self).tokens@.len() && old(self).tokens@[old(self).pos as int].tag
                == Tag::Ident && old(self).tokens@[old(self).pos + 1].tag == Tag::Semicolon
                && old(self).tokens@[old(self).pos + 2].tag == Tag::RBracket ==> r is Ok && final(self).pos == old(self).pos + 3
                && r->Ok_0.kids()[0]->Token_0@ == old(self).tokens@[old(self).pos as int]@
                && r->Ok_0.kids()[1]->Token_0.spec_is_empty() && final(self).errors@ == old(self).errors@.push(
                ParseError {
                    kind: ParseErrorKind::Expected(Tag::Number),
                    location: (Loc {
                        start: old(self).tokens@[old(self).pos + 2].pos,
                        len: 1,
                        line: old(self).tokens@[old(self).pos + 2].line,
                    }),
                },
            ),
        decreases old(self).tokens@.len() - old(self).pos, 26int,
    {
        let mut node = NodeBuilder::from_type(NodeType::ArrayType);

        let elem = match self.type_expr() {
            Ok(c) => c,
            Err(e) => { return Err(e) },
        };
        node.add(elem);
        self.expect_token(Tag::Semicolon);
        let len_tok = self.expect_token(Tag::Number);
        node.add(NodeChild::Token(len_tok));

        self.expect_token(Tag::RBracket);

        let n = node.finish(false);
        proof {
            let cs = n.kids();
            assert(cs.len() == 2);
            assert(cs[0] == elem);
            assert(child_wf(elem));
            assert(child_wf(NodeChild::Token(len_tok)));
            assert(node_wf(n));
        }
        Ok(n)
    }
}

} // verus!
