use vstd::prelude::*;

use crate::ast::{child_wf, elem_ok, node_wf, wf_node, Node, NodeAttr, NodeBuilder, NodeChild, NodeKind, NodeType};
use crate::errors::{ParseErrorKind, ParsingError};
use crate::parser::Parser;
use crate::token::Tag;

verus! {

/// The plain-field token pattern `Ident : Ident` at position `i`.
pub open spec fn spec_plain_field_at(toks: Seq<crate::token::Token>, i: int) -> bool {
    &&& 0 <= i
    &&& i + 2 < toks.len()
    &&& toks[i].tag == Tag::Ident
    &&& toks[i + 1].tag == Tag::Colon
    &&& toks[i + 2].tag == Tag::Ident
}

/// The child is a finished field node of exactly this name and type.
pub open spec fn plain_field_children(
    c: NodeChild,
    name: crate::token::SpecToken,
    ty: crate::token::SpecToken,
) -> bool {
    &&& c is Node
    &&& c->Node_0.kind.0 == NodeType::Field
    &&& c->Node_0.kids().len() == 2
    &&& c->Node_0.kids()[0]->Token_0@ == name
    &&& c->Node_0.kids()[1]->Token_0@ == ty
}

/// The one-variant enum declaration pattern `enum Ident { Ident }`.
pub open spec fn spec_enum_one_variant_at(toks: Seq<crate::token::Token>, i: int) -> bool {
    &&& 0 <= i
    &&& i + 4 < toks.len()
    &&& toks[i + 1].tag == Tag::Ident
    &&& toks[i + 2].tag == Tag::LBrace
    &&& toks[i + 3].tag == Tag::Ident
    &&& toks[i + 4].tag == Tag::RBrace
}

/// The one-field struct declaration pattern
/// `struct Ident { Ident : Ident }`.
pub open spec fn spec_struct_one_field_at(toks: Seq<crate::token::Token>, i: int) -> bool {
    &&& 0 <= i
    &&& i + 6 < toks.len()
    &&& toks[i + 1].tag == Tag::Ident
    &&& toks[i + 2].tag == Tag::LBrace
    &&& spec_plain_field_at(toks, i + 3)
    &&& toks[i + 6].tag == Tag::RBrace
}

/// The two-field struct declaration pattern with a trailing comma,
/// `struct Ident { Ident : Ident , Ident : Ident , }`.
pub open spec fn spec_struct_two_fields_at(toks: Seq<crate::token::Token>, i: int) -> bool {
    &&& 0 <= i
    &&& i + 11 < toks.len()
    &&& toks[i + 1].tag == Tag::Ident
    &&& toks[i + 2].tag == Tag::LBrace
    &&& spec_plain_field_at(toks, i + 3)
    &&& toks[i + 6].tag == Tag::Comma
    &&& spec_plain_field_at(toks, i + 7)
    &&& toks[i + 10].tag == Tag::Comma
    &&& toks[i + 11].tag == Tag::RBrace
}

/// The region `[lo, hi)` of the token stream holds neither a comma
/// nor a closing brace: exactly what a field-list resynchronization
/// may discard.
pub open spec fn field_sync_clean(toks: Seq<crate::token::Token>, lo: int, hi: int) -> bool {
    forall|j: int|
        lo <= j < hi ==> #[trigger] toks[j].tag != Tag::Comma && toks[j].tag != Tag::RBrace
}

impl Parser {
    /// Parses `struct Name { field: type, ... }`. One malformed field
    /// is dropped and the rest of the list is still parsed; an
    /// unsalvageable field abandons the whole list; zero fields mark
    /// the field list `Invalid`, since a struct's field list is a
    /// genuinely required one.
    pub fn struct_decl(&mut self) -> (r: Result<Node, ParsingError>)
        requires
            old(self).wf(),
            old(self).has_cur(),
            old(self).cur().tag == Tag::Struct,
        ensures
            final(self).advanced_from(old(self)),
            final(self).pos > old(self).pos,
            r is Ok ==> wf_node(r->Ok_0, NodeType::StructDecl),
            r is Err ==> final(self).errors@.len() > old(self).errors@.len(),
            old(self).pos + 3 < old(self).tokens@.len() && old(self).tokens@[old(self).pos
                + 1].tag == Tag::Ident && old(self).tokens@[old(self).pos + 2].tag == Tag::LBrace
                && old(self).tokens@[old(self).pos + 3].tag == Tag::RBrace ==> r is Ok && final(self).pos == old(self).pos + 4 && final(self).errors == old(self).errors
                && r->Ok_0.kids()[0]->Token_0@ == old(self).tokens@[old(self).pos + 1]@
                && r->Ok_0.kids()[1]->Node_0.kind == NodeKind(
                NodeType::FieldList,
                NodeAttr::Invalid,
            ) && r->Ok_0.kids()[1]->Node_0.children is None,
            spec_struct_one_field_at(old(self).tokens@, old(self).pos as int) ==> r is Ok
                && final(self).pos == old(self).pos + 7 && final(self).errors == old(self).errors
                && r->Ok_0.kids()[0]->Token_0@ == old(self).tokens@[old(self).pos + 1]@
                && r->Ok_0.kids()[1]->Node_0.kind.0 == NodeType::FieldList
                && r->Ok_0.kids()[1]->Node_0.kids().len() == 1 && plain_field_children(
                r->Ok_0.kids()[1]->Node_0.kids()[0],
                old(self).tokens@[old(self).pos + 3]@,
                old(self).tokens@[old(self).pos + 5]@,
            ),
            spec_struct_two_fields_at(old(self).tokens@, old(self).pos as int) ==> r is Ok
                && final(self).pos == old(self).pos + 12 && final(self).errors == old(self).errors
                && r->Ok_0.kids()[0]->Token_0@ == old(self).tokens@[old(self).pos + 1]@
                && r->Ok_0.kids()[1]->Node_0.kind.0 == NodeType::FieldList
                && r->Ok_0.kids()[1]->Node_0.kids().len() == 2 && plain_field_children(
                r->Ok_0.kids()[1]->Node_0.kids()[0],
                old(self).tokens@[old(self).pos + 3]@,
                old(self).tokens@[old(self).pos + 5]@,
            ) && plain_field_children(
                r->Ok_0.kids()[1]->Node_0.kids()[1],
                old(self).tokens@[old(self).pos + 7]@,
                old(self).tokens@[old(self).pos + 9]@,
            ),
        decreases old(self).tokens@.len() - old(self).pos, 70int,
    {
        self.next();  // the `struct` keyword

        let mut node = NodeBuilder::from_type(NodeType::StructDecl);

        // The name is required, but its absence is reported and
        // parsing keeps going.
        let struct_name = self.expect_token(Tag::Ident);
        node.add(NodeChild::Token(struct_name));

        self.expect_token(Tag::LBrace);

        let mut fields = NodeBuilder::from_type(NodeType::FieldList);

        if self.peek_is(Tag::RBrace) {
            self.next();
        } else {
            loop
                invariant_except_break
                    spec_struct_one_field_at(old(self).tokens@, old(self).pos as int) ==> self.pos
                        == old(self).pos + 3 && fields.children@.len() == 0 && self.errors == old(self).errors,
                    spec_struct_two_fields_at(old(self).tokens@, old(self).pos as int) ==> (
                    self.pos == old(self).pos + 3 && fields.children@.len() == 0 && self.errors
                        == old(self).errors) || (self.pos == old(self).pos + 7
                        && fields.children@.len() == 1 && plain_field_children(
                        fields.children@[0],
                        old(self).tokens@[old(self).pos + 3]@,
                        old(self).tokens@[old(self).pos + 5]@,
                    ) && self.errors == old(self).errors),
                invariant
                    self.wf(),
                    self.advanced_from(old(self)),
                    self.pos > old(self).pos,
                    self.errors@.len() >= old(self).errors@.len(),
                    !(old(self).pos + 3 < old(self).tokens@.len() && old(self).tokens@[old(self).pos + 1].tag == Tag::Ident && old(self).tokens@[old(self).pos
                        + 2].tag == Tag::LBrace && old(self).tokens@[old(self).pos + 3].tag
                        == Tag::RBrace),
                    fields.kind.0 == NodeType::FieldList,
                    forall|i: int|
                        0 <= i < fields.children@.len() ==> elem_ok(
                            NodeType::FieldList,
                            #[trigger] fields.children@[i],
                        ) && child_wf(fields.children@[i]),
                ensures
                    spec_struct_one_field_at(old(self).tokens@, old(self).pos as int) ==> self.pos
                        == old(self).pos + 7 && fields.children@.len() == 1
                        && plain_field_children(
                        fields.children@[0],
                        old(self).tokens@[old(self).pos + 3]@,
                        old(self).tokens@[old(self).pos + 5]@,
                    ) && self.errors == old(self).errors,
                    spec_struct_two_fields_at(old(self).tokens@, old(self).pos as int)
                        ==> self.pos == old(self).pos + 12 && fields.children@.len() == 2
                        && plain_field_children(
                        fields.children@[0],
                        old(self).tokens@[old(self).pos + 3]@,
                        old(self).tokens@[old(self).pos + 5]@,
                    ) && plain_field_children(
                        fields.children@[1],
                        old(self).tokens@[old(self).pos + 7]@,
                        old(self).tokens@[old(self).pos + 9]@,
                    ) && self.errors == old(self).errors,
                decreases self.tokens@.len() - self.pos,
            {
                match self.struct_field() {
                    Ok(f) => {
                        fields.add(NodeChild::Node(f));
                    },
                    Err(ParsingError::CouldRecover) => {
                        // The element is dropped; its parse came to
                        // rest at the next separator or closer, so the
                        // rest of the list is still parsed.
                    },
                    Err(ParsingError::Terminal) => {
                        // The element is unsalvageable: the entire
                        // list is abandoned.
                        let eof = self.decl_synchronize_generic(Tag::RBrace);
                        return Err(
                            if eof {
                                ParsingError::Fatal
                            } else {
                                ParsingError::Failed
                            },
                        );
                    },
                    Err(e) => { return Err(e) },
                }
                let tag = match self.peek() {
                    Some(tok) => tok.tag,
                    None => {
                        let l = self.loc(0);
                        self.add_error(ParseErrorKind::UnexpectedEOF, l);
                        return Err(ParsingError::Failed);
                    },
                };
                if tag == Tag::Comma {
                    self.next();
                    if self.peek_is(Tag::RBrace) {
                        self.next();
                        break ;
                    }
                } else if tag == Tag::RBrace {
                    self.next();
                    break ;
                } else {
                    let l = self.loc(1);
                    self.add_error(ParseErrorKind::MissingFieldDelimeter, l);
                    let eof = self.decl_synchronize_generic(Tag::RBrace);
                    return Err(
                        if eof {
                            ParsingError::Fatal
                        } else {
                            ParsingError::Failed
                        },
                    );
                }
            }
        }

        let fields_node = fields.finish(true);
        let ghost gfields = fields_node;
        proof {
            assert(node_wf(fields_node));
        }
        node.add(NodeChild::Node(fields_node));

        let n = node.finish(false);
        proof {
            let cs = n.kids();
            assert(cs.len() == 2);
            assert(child_wf(NodeChild::Token(struct_name)));
            assert(child_wf(NodeChild::Node(gfields)));
            assert(node_wf(n));
        }
        Ok(n)
    }

    /// Parses one `name: type` field of a struct declaration. A field
    /// whose name or colon is missing is locally contained: the parse
    /// comes to rest at the next separator or closer and only this
    /// element is dropped. A field whose type fails with no safe
    /// resynchronization point abandons the whole list.
    pub fn struct_field(&mut self) -> (r: Result<Node, ParsingError>)
        requires
            old(self).wf(),
        ensures
            final(self).advanced_from(old(self)),
            r is Ok ==> wf_node(r->Ok_0, NodeType::Field) && final(self).pos > old(self).pos,
            r is Err ==> final(self).errors@.len() > old(self).errors@.len(),
            spec_plain_field_at(old(self).tokens@, old(self).pos as int) ==> r is Ok && final(self).pos == old(self).pos + 3 && final(self).errors == old(self).errors
                && plain_field_children(
                NodeChild::Node(r->Ok_0),
                old(self).tokens@[old(self).pos as int]@,
                old(self).tokens@[old(self).pos + 2]@,
            ),
            r == Result::<Node, ParsingError>::Err(ParsingError::CouldRecover) ==> !final(self).has_cur() || final(self).cur().tag == Tag::Comma || final(self).cur().tag
                == Tag::RBrace,
        decreases old(self).tokens@.len() - old(self).pos, 45int,
    {
        let mut field = NodeBuilder::from_type(NodeType::Field);

        let field_name = self.expect_token(Tag::Ident);
        if field_name.is_empty() {
            self.field_synchronize();
            return Err(ParsingError::CouldRecover);
        }
        if self.expect_token(Tag::Colon).is_empty() {
            self.field_synchronize();
            return Err(ParsingError::CouldRecover);
        }

        let field_type = match self.type_expr() {
            Ok(t) => t,
            // The type parse reported its own diagnostics already.
            Err(ParsingError::Failed) => {
                if self.peek_is(Tag::Comma) || self.peek_is(Tag::RBrace) {
                    return Err(ParsingError::CouldRecover);
                } else {
                    return Err(ParsingError::Terminal);
                }
            },
            Err(e) => { return Err(e) },
        };

        field.add(NodeChild::Token(field_name));
        field.add(field_type);
        let n = field.finish(false);
        proof {
            let cs = n.kids();
            assert(cs.len() == 2);
            assert(cs[1] == field_type);
            assert(child_wf(NodeChild::Token(field_name)));
            assert(child_wf(field_type));
            assert(node_wf(n));
        }
        Ok(n)
    }

    /// Resynchronizes inside a field list: discards every token
    /// before the next separator or closer, both left unconsumed; the
    /// discarded region holds neither.
    pub fn field_synchronize(&mut self)
        requires
            old(self).wf(),
        ensures
            final(self).advanced_from(old(self)),
            final(self).errors == old(self).errors,
            !final(self).has_cur() || final(self).cur().tag == Tag::Comma || final(self).cur().tag == Tag::RBrace,
            field_sync_clean(final(self).tokens@, old(self).pos as int, final(self).pos as int),
        decreases old(self).tokens@.len() - old(self).pos, 10int,
    {
        loop
            invariant
                self.wf(),
                self.advanced_from(old(self)),
                self.errors == old(self).errors,
                field_sync_clean(self.tokens@, old(self).pos as int, self.pos as int),
            decreases self.tokens@.len() - self.pos,
        {
            let tag = match self.peek() {
                Some(tok) => tok.tag,
                None => { return ; },
            };
            if tag == Tag::Comma || tag == Tag::RBrace {
                return ;
            }
            self.next();
        }
    }

    /// Parses `enum Name { Variant, Variant(Type), ... }`, each
    /// variant an identifier with an optional parenthesized payload
    /// type name.
    pub fn enum_decl(&mut self) -> (r: Result<Node, ParsingError>)
        requires
            old(self).wf(),
            old(self).has_cur(),
            old(self).cur().tag == Tag::Enum,
        ensures
            final(self).advanced_from(old(self)),
            final(self).pos > old(self).pos,
            r is Ok ==> wf_node(r->Ok_0, NodeType::EnumDecl),
            r is Err ==> final(self).errors@.len() > old(self).errors@.len(),
            spec_enum_one_variant_at(old(self).tokens@, old(self).pos as int) ==> r is Ok && final(self).pos == old(self).pos + 5 && final(self).errors == old(self).errors
                && r->Ok_0.kids()[0]->Token_0@ == old(self).tokens@[old(self).pos + 1]@
                && r->Ok_0.kids()[1]->Node_0.kind.0 == NodeType::VariantList
                && r->Ok_0.kids()[1]->Node_0.kids().len() == 1
                && r->Ok_0.kids()[1]->Node_0.kids()[0]->Node_0.kids()[0]->Token_0@ == old(self).tokens@[old(self).pos + 3]@
                && r->Ok_0.kids()[1]->Node_0.kids()[0]->Node_0.kids()[1]->Token_0.spec_is_empty(),
        decreases old(self).tokens@.len() - old(self).pos, 70int,
    {
        self.next();  // the `enum` keyword

        let mut node = NodeBuilder::from_type(NodeType::EnumDecl);

        let enum_name = self.expect_token(Tag::Ident);
        node.add(NodeChild::Token(enum_name));

        self.expect_token(Tag::LBrace);

        let mut variants = NodeBuilder::from_type(NodeType::VariantList);

        if self.peek_is(Tag::RBrace) {
            self.next();
        } else {
            loop
                invariant_except_break
                    spec_enum_one_variant_at(old(self).tokens@, old(self).pos as int) ==> self.pos
                        == old(self).pos + 3 && variants.children@.len() == 0 && self.errors
                        == old(self).errors,
                invariant
                    self.wf(),
                    self.advanced_from(old(self)),
                    self.pos > old(self).pos,
                    self.errors@.len() >= old(self).errors@.len(),
                    variants.kind.0 == NodeType::VariantList,
                    forall|i: int|
                        0 <= i < variants.children@.len() ==> elem_ok(
                            NodeType::VariantList,
                            #[trigger] variants.children@[i],
                        ) && child_wf(variants.children@[i]),
                ensures
                    spec_enum_one_variant_at(old(self).tokens@, old(self).pos as int) ==> self.pos
                        == old(self).pos + 5 && variants.children@.len() == 1 && self.errors
                        == old(self).errors && variants.children@[0]->Node_0.kids().len() == 2
                        && variants.children@[0]->Node_0.kids()[0]->Token_0@ == old(self).tokens@[old(self).pos + 3]@
                        && variants.children@[0]->Node_0.kids()[1]->Token_0.spec_is_empty(),
                decreases self.tokens@.len() - self.pos,
            {
                match self.variant() {
                    Ok(v) => {
                        variants.add(NodeChild::Node(v));
                    },
                    Err(ParsingError::CouldRecover) => {},
                    Err(ParsingError::Terminal) => {
                        let eof = self.decl_synchronize_generic(Tag::RBrace);
                        return Err(
                            if eof {
                                ParsingError::Fatal
                            } else {
                                ParsingError::Failed
                            },
                        );
                    },
                    Err(e) => { return Err(e) },
                }
                let tag = match self.peek() {
                    Some(tok) => tok.tag,
                    None => {
                        let l = self.loc(0);
                        self.add_error(ParseErrorKind::UnexpectedEOF, l);
                        return Err(ParsingError::Failed);
                    },
                };
                if tag == Tag::Comma {
                    self.next();
                    if self.peek_is(Tag::RBrace) {
                        self.next();
                        break ;
                    }
                } else if tag == Tag::RBrace {
                    self.next();
                    break ;
                } else {
                    let l = self.loc(1);
                    self.add_error(ParseErrorKind::MissingFieldDelimeter, l);
                    let eof = self.decl_synchronize_generic(Tag::RBrace);
                    return Err(
                        if eof {
                            ParsingError::Fatal
                        } else {
                            ParsingError::Failed
                        },
                    );
                }
            }
        }

        let variants_node = variants.finish(true);
        let ghost gvariants = variants_node;
        proof {
            assert(node_wf(variants_node));
        }
        node.add(NodeChild::Node(variants_node));

        let n = node.finish(false);
        proof {
            let cs = n.kids();
            assert(cs.len() == 2);
            assert(child_wf(NodeChild::Token(enum_name)));
            assert(child_wf(NodeChild::Node(gvariants)));
            assert(node_wf(n));
        }
        Ok(n)
    }

    /// Parses one enum variant: `Tag` or `Tag(Type)`. Without a
    /// payload the type slot holds the empty token.
    pub fn variant(&mut self) -> (r: Result<Node, ParsingError>)
        requires
            old(self).wf(),
        ensures
            final(self).advanced_from(old(self)),
            r is Ok ==> wf_node(r->Ok_0, NodeType::Variant) && final(self).pos > old(self).pos,
            r is Err ==> final(self).errors@.len() > old(self).errors@.len(),
            old(self).has_cur() && old(self).cur().tag == Tag::Ident && (old(self).pos + 1
                >= old(self).tokens@.len() || old(self).tokens@[old(self).pos + 1].tag
                != Tag::LParen) ==> r is Ok && final(self).pos == old(self).pos + 1 && final(self).errors == old(self).errors && r->Ok_0.kids()[0]->Token_0@ == old(self).cur()@
                && r->Ok_0.kids()[1]->Token_0.spec_is_empty(),
            old(self).pos + 3 < old(self).tokens@.len() && old(self).tokens@[old(self).pos
                as int].tag == Tag::Ident && old(self).tokens@[old(self).pos + 1].tag
                == Tag::LParen && old(self).tokens@[old(self).pos + 2].tag == Tag::Ident
                && old(self).tokens@[old(self).pos + 3].tag == Tag::RParen ==> r is Ok && final(self).pos == old(self).pos + 4 && final(self).errors == old(self).errors
                && r->Ok_0.kids()[0]->Token_0@ == old(self).tokens@[old(self).pos as int]@
                && r->Ok_0.kids()[1]->Token_0@ == old(self).tokens@[old(self).pos + 2]@,
            r == Result::<Node, ParsingError>::Err(ParsingError::CouldRecover) ==> !final(self).has_cur() || final(self).cur().tag == Tag::Comma || final(self).cur().tag
                == Tag::RBrace,
        decreases old(self).tokens@.len() - old(self).pos, 45int,
    {
        let mut variant = NodeBuilder::from_type(NodeType::Variant);

        let tag_name = self.expect_token(Tag::Ident);
        if tag_name.is_empty() {
            self.field_synchronize();
            return Err(ParsingError::CouldRecover);
        }
        variant.add(NodeChild::Token(tag_name));

        if self.peek_is(Tag::LParen) {
            self.next();
            let payload = self.expect_token(Tag::Ident);
            if payload.is_empty() {
                self.field_synchronize();
                return Err(ParsingError::CouldRecover);
            }
            if self.expect_token(Tag::RParen).is_empty() {
                self.field_synchronize();
                return Err(ParsingError::CouldRecover);
            }
            variant.add(NodeChild::Token(payload));
        } else {
            variant.add(NodeChild::Token(crate::token::Token::empty()));
        }

        let n = variant.finish(false);
        proof {
            let cs = n.kids();
            assert(cs.len() == 2);
            assert(child_wf(cs[0]));
            assert(child_wf(cs[1]));
            assert(node_wf(n));
        }
        Ok(n)
    }
}

} // verus!
