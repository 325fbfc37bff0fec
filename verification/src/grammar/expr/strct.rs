use vstd::prelude::*;

use crate::ast::{child_wf, elem_ok, node_wf, wf_node, Node, NodeBuilder, NodeChild, NodeType};
use crate::errors::{Loc, ParseErrorKind, ParsingError};
use crate::grammar::expr::Stop;
use crate::parser::Parser;
use crate::token::Tag;

verus! {

/// The one-field struct-literal pattern (after its leading dot):
/// `Ident { Ident : atom }` where the atom's follower is the closing
/// brace.
pub open spec fn spec_struct_literal_one_field_at(
    toks: Seq<crate::token::Token>,
    i: int,
) -> bool {
    &&& 0 <= i
    &&& i + 5 < toks.len()
    &&& toks[i].tag == Tag::Ident
    &&& toks[i + 1].tag == Tag::LBrace
    &&& toks[i + 2].tag == Tag::Ident
    &&& toks[i + 3].tag == Tag::Colon
    &&& crate::grammar::expr::spec_atom_expr_at(toks, i + 4, Stop::CloseBraceOrComma)
    &&& toks[i + 5].tag == Tag::RBrace
}

impl Parser {
    /// Parses a struct-literal expression `. Name { field: value, ... }`;
    /// the leading dot is already consumed.
    pub fn struct_expr(&mut self) -> (r: Result<Node, ParsingError>)
        requires
            old(self).wf(),
        ensures
            final(self).advanced_from(old(self)),
            r is Ok ==> wf_node(r->Ok_0, NodeType::StructExpr),
            r is Err ==> final(self).errors@.len() > old(self).errors@.len(),
            spec_struct_literal_one_field_at(old(self).tokens@, old(self).pos as int) ==> r is Ok
                && final(self).pos == old(self).pos + 6 && final(self).errors == old(self).errors
                && r->Ok_0.kids()[0]->Token_0@ == old(self).tokens@[old(self).pos as int]@
                && r->Ok_0.kids()[1]->Node_0.kind.0 == NodeType::FieldInitList
                && r->Ok_0.kids()[1]->Node_0.kids().len() == 1
                && r->Ok_0.kids()[1]->Node_0.kids()[0]->Node_0.kids()[0]->Token_0@ == old(self).tokens@[old(self).pos + 2]@
                && r->Ok_0.kids()[1]->Node_0.kids()[0]->Node_0.kids()[1]->Token_0@ == old(self).tokens@[old(self).pos + 4]@,
        decreases old(self).tokens@.len() - old(self).pos, 50int,
    {
        let mut node = NodeBuilder::from_type(NodeType::StructExpr);

        // The name is required, but its absence is reported and parsing
        // keeps going with the empty token standing in.
        let struct_name = self.expect_token(Tag::Ident);
        node.add(NodeChild::Token(struct_name));

        self.expect_token(Tag::LBrace);

        let mut fields = NodeBuilder::from_type(NodeType::FieldInitList);

        if self.peek_is(Tag::RBrace) {
            self.next();
        } else {
            loop
                invariant_except_break
                    spec_struct_literal_one_field_at(old(self).tokens@, old(self).pos as int)
                        ==> self.pos == old(self).pos + 2 && fields.children@.len() == 0
                        && self.errors == old(self).errors,
                invariant
                    self.wf(),
                    self.advanced_from(old(self)),
                    fields.kind.0 == NodeType::FieldInitList,
                    forall|i: int|
                        0 <= i < fields.children@.len() ==> elem_ok(
                            NodeType::FieldInitList,
                            #[trigger] fields.children@[i],
                        ) && child_wf(fields.children@[i]),
                ensures
                    spec_struct_literal_one_field_at(old(self).tokens@, old(self).pos as int)
                        ==> self.pos == old(self).pos + 6 && fields.children@.len() == 1
                        && self.errors == old(self).errors
                        && fields.children@[0]->Node_0.kids().len() == 2
                        && fields.children@[0]->Node_0.kids()[0]->Token_0@ == old(self).tokens@[old(self).pos + 2]@ && fields.children@[0]->Node_0.kids()[1]->Token_0@
                        == old(self).tokens@[old(self).pos + 4]@,
                decreases self.tokens@.len() - self.pos,
            {
                match self.field_init() {
                    Ok(f) => {
                        fields.add(NodeChild::Node(f));
                    },
                    Err(ParsingError::Terminal) => {
                        let eof = self.decl_synchronize_generic(Tag::RBrace);
                        return Err(
                            if eof {
                                ParsingError::Fatal
                            } else {
                                ParsingError::Failed
                            },
                        );
                    },
                    Err(e) => { return Err(e) },
                }
                let tag = match self.peek() {
                    Some(tok) => tok.tag,
                    None => {
                        let l = self.loc(0);
                        self.add_error(ParseErrorKind::UnexpectedEOF, l);
                        return Err(ParsingError::Failed);
                    },
                };
                if tag == Tag::Comma {
                    self.next();
                } else if tag == Tag::RBrace {
                    self.next();
                    break ;
                } else {
                    let l = match self.peek() {
                        Some(tok) => Loc::from_token(tok),
                        None => unreached(),
                    };
                    self.add_error(ParseErrorKind::MissingFieldDelimeter, l);
                    return Err(ParsingError::Failed);
                }
            }
        }

        let fields_node = fields.finish(false);
        let ghost gfields = fields_node;
        proof {
            assert(node_wf(fields_node));
        }
        node.add(NodeChild::Node(fields_node));
        let n = node.finish(false);
        proof {
            let cs = n.kids();
            assert(cs.len() == 2);
            assert(child_wf(NodeChild::Token(struct_name)));
            assert(child_wf(NodeChild::Node(gfields)));
            assert(node_wf(n));
        }
        Ok(n)
    }

    /// Parses one `field: value` initializer of a struct literal. A
    /// missing name or colon makes the whole literal unsalvageable.
    pub fn field_init(&mut self) -> (r: Result<Node, ParsingError>)
        requires
            old(self).wf(),
        ensures
            final(self).advanced_from(old(self)),
            r is Ok ==> wf_node(r->Ok_0, NodeType::FieldInit) && final(self).pos > old(self).pos,
            r is Err ==> final(self).errors@.len() > old(self).errors@.len(),
            old(self).pos + 1 < old(self).tokens@.len() && old(self).tokens@[old(self).pos
                as int].tag == Tag::Ident && old(self).tokens@[old(self).pos + 1].tag == Tag::Colon
                && crate::grammar::expr::spec_atom_expr_at(
                old(self).tokens@,
                old(self).pos + 2,
                Stop::CloseBraceOrComma,
            ) ==> r is Ok && final(self).pos == old(self).pos + 3 && final(self).errors == old(self).errors && r->Ok_0.kids()[0]->Token_0@ == old(self).tokens@[old(self).pos as int]@
                && r->Ok_0.kids()[1]->Token_0@ == old(self).tokens@[old(self).pos + 2]@,
        decreases old(self).tokens@.len() - old(self).pos, 45int,
    {
        let mut field = NodeBuilder::from_type(NodeType::FieldInit);

        let field_name = self.expect_token(Tag::Ident);
        if field_name.is_empty() {
            return Err(ParsingError::Terminal);
        }
        if self.expect_token(Tag::Colon).is_empty() {
            return Err(ParsingError::Terminal);
        }

        let field_expr = match self.expr_with_stop(Stop::CloseBraceOrComma) {
            Ok(c) => c,
            Err(ParsingError::Failed) => { return Err(ParsingError::Terminal) },
            Err(e) => { return Err(e) },
        };

        field.add(NodeChild::Token(field_name));
        field.add(field_expr);
        let n = field.finish(false);
        proof {
            let cs = n.kids();
            assert(cs.len() == 2);
            assert(cs[1] == field_expr);
            assert(child_wf(NodeChild::Token(field_name)));
            assert(child_wf(field_expr));
            assert(node_wf(n));
        }
        Ok(n)
    }
}

} // verus!
