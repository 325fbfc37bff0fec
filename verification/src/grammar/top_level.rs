use vstd::prelude::*;

use crate::ast::{
    c_top_decl, child_wf, elem_ok, is_top_decl_kind, node_wf, wf_node, Node, NodeBuilder,
    NodeChild, NodeType,
};
use crate::errors::{Loc, ParseErrorKind, ParsingError};
use crate::parser::Parser;
use crate::token::Tag;

pub mod data_def;
pub mod function;

verus! {

/// Where parameter-list synchronization came to rest.
pub enum ParamSyncStatus {
    /// A comma was found, unconsumed.
    FoundComma,
    /// The closing parenthesis was found, unconsumed.
    FoundClosingParen,
    /// The input ran out.
    EOF,
}


/// Whether the tokens from position `i` on spell out the rest of a
/// well-formed import path. With `needs_ident` an identifier segment
/// is expected next; without it, a dot continuing the path or the
/// semicolon closing it.
pub open spec fn import_path_from(toks: Seq<crate::token::Token>, i: int, needs_ident: bool) -> bool
    decreases toks.len() - i,
    when 0 <= i
{
    if i >= toks.len() {
        false
    } else if needs_ident {
        toks[i].tag == Tag::Ident && import_path_from(toks, i + 1, false)
    } else if toks[i].tag == Tag::Semicolon {
        true
    } else {
        toks[i].tag == Tag::Dot && import_path_from(toks, i + 1, true)
    }
}

/// The identifier segments that a well-formed import path holds from
/// position `i` on, in order.
pub open spec fn import_segments(toks: Seq<crate::token::Token>, i: int, needs_ident: bool) -> Seq<
    crate::token::SpecToken,
>
    decreases toks.len() - i,
    when 0 <= i
{
    if i >= toks.len() {
        Seq::empty()
    } else if needs_ident {
        if toks[i].tag == Tag::Ident {
            seq![toks[i]@] + import_segments(toks, i + 1, false)
        } else {
            Seq::empty()
        }
    } else if toks[i].tag == Tag::Dot {
        import_segments(toks, i + 1, true)
    } else {
        Seq::empty()
    }
}

/// The leading keywords of top-level declarations, at which
/// declaration synchronization rests without consuming: the
/// declaration dispatch always peeks them.
pub open spec fn spec_decl_leading(tag: Tag) -> bool {
    ||| tag == Tag::Module
    ||| tag == Tag::Import
    ||| tag == Tag::Enum
    ||| tag == Tag::KwFn
    ||| tag == Tag::Struct
    ||| tag == Tag::Type
    ||| tag == Tag::Const
}

/// The region `[lo, hi)` of the token stream holds neither the given
/// checkpoint nor a declaration keyword: exactly what a declaration
/// synchronization sweep may discard.
pub open spec fn decl_sync_clean(toks: Seq<crate::token::Token>, lo: int, hi: int, closer: Tag) -> bool {
    forall|j: int|
        lo <= j < hi ==> #[trigger] toks[j].tag != closer && !spec_decl_leading(toks[j].tag)
}

/// The position just past the semicolon that closes a well-formed
/// import path starting at `i`; meaningful where `import_path_from`
/// holds.
pub open spec fn import_end(toks: Seq<crate::token::Token>, i: int, needs_ident: bool) -> int
    decreases toks.len() - i,
    when 0 <= i
{
    if i >= toks.len() {
        i
    } else if needs_ident {
        if toks[i].tag == Tag::Ident {
            import_end(toks, i + 1, false)
        } else {
            i
        }
    } else if toks[i].tag == Tag::Semicolon {
        i + 1
    } else if toks[i].tag == Tag::Dot {
        import_end(toks, i + 1, true)
    } else {
        i
    }
}

/// The token views held by a sequence of token children.
pub open spec fn token_views(cs: Seq<NodeChild>) -> Seq<crate::token::SpecToken> {
    cs.map_values(|c: NodeChild| c->Token_0@)
}

impl Parser {
    /// Produces the syntax tree for a whole source unit: a top-level
    /// declaration list. Parsing never fails outright: a totally
    /// unparseable input yields a (possibly childless) list node plus
    /// a non-empty diagnostic list, and only a fatal collapse stops
    /// the walk over the input early.
    pub fn parse(&mut self) -> (n: Node)
        requires
            old(self).wf(),
        ensures
            final(self).advanced_from(old(self)),
            n.kind.0 == NodeType::TopDeclList,
            node_wf(n),
            forall|i: int| 0 <= i < n.kids().len() ==> c_top_decl(#[trigger] n.kids()[i]),
            old(self).has_cur() ==> n.kids().len() > 0 || final(self).errors@.len() > old(self).errors@.len(),
            final(self).pos == final(self).tokens@.len() || final(self).errors@.len() > old(self).errors@.len(),
            old(self).has_cur() && old(self).cur().tag == Tag::Import && import_path_from(
                old(self).tokens@,
                old(self).pos + 1,
                true,
            ) && import_end(old(self).tokens@, old(self).pos + 1, true) == old(self).tokens@.len()
                ==> n.kids().len() == 1 && n.kids()[0]->Node_0.kind.0 == NodeType::ImportDecl
                && token_views(n.kids()[0]->Node_0.kids()) =~= import_segments(
                old(self).tokens@,
                old(self).pos + 1,
                true,
            ) && final(self).errors == old(self).errors,
        decreases old(self).tokens@.len() - old(self).pos, 90int,
    {
        let mut node = NodeBuilder::from_type(NodeType::TopDeclList);

        while !self.peek_is_none()
            invariant
                self.wf(),
                self.advanced_from(old(self)),
                node.kind.0 == NodeType::TopDeclList,
                forall|i: int|
                    0 <= i < node.children@.len() ==> elem_ok(
                        NodeType::TopDeclList,
                        #[trigger] node.children@[i],
                    ) && child_wf(node.children@[i]),
                self.pos > old(self).pos ==> node.children@.len() > 0 || self.errors@.len() > old(self).errors@.len(),
                old(self).has_cur() && old(self).cur().tag == Tag::Import && import_path_from(
                    old(self).tokens@,
                    old(self).pos + 1,
                    true,
                ) && import_end(old(self).tokens@, old(self).pos + 1, true)
                    == old(self).tokens@.len() ==> (self.pos == old(self).pos
                    && node.children@.len() == 0 && self.errors == old(self).errors) || (
                self.pos == self.tokens@.len() && node.children@.len() == 1
                    && node.children@[0]->Node_0.kind.0 == NodeType::ImportDecl && token_views(
                    node.children@[0]->Node_0.kids(),
                ) =~= import_segments(old(self).tokens@, old(self).pos + 1, true)
                    && self.errors == old(self).errors),
            decreases self.tokens@.len() - self.pos,
        {
            match self.top_level_declaration() {
                Ok(decl) => {
                    node.add(NodeChild::Node(decl));
                },
                Err(ParsingError::Fatal) => {
                    // A structural collapse: stop the walk and hand
                    // back what stands so far.
                    let n = node.finish(false);
                    proof {
                        assert(node_wf(n));
                    }
                    return n;
                },
                Err(_) => {
                    // The failed declaration synchronized on its own;
                    // resume at the checkpoint it reached.
                },
            }
        }

        let n = node.finish(false);
        proof {
            assert(node_wf(n));
        }
        n
    }

    /// Whether the input is exhausted.
    pub fn peek_is_none(&self) -> (r: bool)
        requires
            self.wf(),
        ensures
            r == !self.has_cur(),
    {
        self.pos >= self.tokens.len()
    }

    /// Dispatches one top-level declaration on its leading keyword,
    /// which the declaration's own routine consumes. A token that can
    /// lead no declaration is reported and skipped, so the walk over
    /// the input always makes progress.
    pub fn top_level_declaration(&mut self) -> (r: Result<Node, ParsingError>)
        requires
            old(self).wf(),
            old(self).has_cur(),
        ensures
            final(self).advanced_from(old(self)),
            final(self).pos > old(self).pos,
            r is Ok ==> node_wf(r->Ok_0) && is_top_decl_kind(r->Ok_0.kind.0) && r->Ok_0.children
                is Some,
            r is Err ==> final(self).errors@.len() > old(self).errors@.len(),
            old(self).cur().tag == Tag::Import && import_path_from(
                old(self).tokens@,
                old(self).pos + 1,
                true,
            ) ==> r is Ok && final(self).pos == import_end(old(self).tokens@, old(self).pos + 1, true)
                && final(self).errors == old(self).errors && r->Ok_0.kind.0
                == NodeType::ImportDecl && token_views(r->Ok_0.kids()) =~= import_segments(
                old(self).tokens@,
                old(self).pos + 1,
                true,
            ),
        decreases old(self).tokens@.len() - old(self).pos, 75int,
    {
        let tag = match self.peek() {
            Some(tok) => tok.tag,
            None => unreached(),
        };
        match tag {
            Tag::Module => self.module(),
            Tag::Import => self.import(),
            Tag::KwFn => self.function_def(),
            Tag::Struct => self.struct_decl(),
            Tag::Enum => self.enum_decl(),
            Tag::Type => self.type_alias(),
            Tag::Const => self.const_decl(),
            _ => {
                let t = match self.next() {
                    Some(t) => t,
                    None => unreached(),
                };
                let l = Loc::from_token(&t);
                self.add_error(ParseErrorKind::Expected(Tag::KwFn), l);
                Err(ParsingError::Failed)
            },
        }
    }

    /// Parses `module name { declarations }`.
    pub fn module(&mut self) -> (r: Result<Node, ParsingError>)
        requires
            old(self).wf(),
            old(self).has_cur(),
            old(self).cur().tag == Tag::Module,
        ensures
            final(self).advanced_from(old(self)),
            final(self).pos > old(self).pos,
            r is Ok ==> wf_node(r->Ok_0, NodeType::Module),
            r is Err ==> final(self).errors@.len() > old(self).errors@.len(),
            old(self).pos + 3 < old(self).tokens@.len() && old(self).tokens@[old(self).pos
                + 1].tag == Tag::Ident && old(self).tokens@[old(self).pos + 2].tag == Tag::LBrace
                && old(self).tokens@[old(self).pos + 3].tag == Tag::RBrace ==> r is Ok && final(self).pos == old(self).pos + 4 && final(self).errors == old(self).errors
                && r->Ok_0.kids()[0]->Token_0@ == old(self).tokens@[old(self).pos + 1]@
                && r->Ok_0.kids()[1]->Node_0.kind.0 == NodeType::TopDeclList
                && r->Ok_0.kids()[1]->Node_0.kids().len() == 0,
        decreases old(self).tokens@.len() - old(self).pos, 70int,
    {
        self.next();  // the `module` keyword
        let mut node = NodeBuilder::from_type(NodeType::Module);

        // The name is required, but its absence is reported and
        // parsing keeps going.
        let ident = self.expect_token(Tag::Ident);
        node.add(NodeChild::Token(ident));

        let mut decls = NodeBuilder::from_type(NodeType::TopDeclList);

        self.expect_token(Tag::LBrace);

        loop
            invariant
                self.wf(),
                self.advanced_from(old(self)),
                self.pos > old(self).pos,
                decls.kind.0 == NodeType::TopDeclList,
                old(self).pos + 3 < old(self).tokens@.len() && old(self).tokens@[old(self).pos
                    + 1].tag == Tag::Ident && old(self).tokens@[old(self).pos + 2].tag
                    == Tag::LBrace && old(self).tokens@[old(self).pos + 3].tag == Tag::RBrace
                    ==> self.pos == old(self).pos + 3 && decls.children@.len() == 0 && self.errors
                    == old(self).errors,
                forall|i: int|
                    0 <= i < decls.children@.len() ==> elem_ok(
                        NodeType::TopDeclList,
                        #[trigger] decls.children@[i],
                    ) && child_wf(decls.children@[i]),
            decreases self.tokens@.len() - self.pos,
        {
            if self.peek_is_none() || self.peek_is(Tag::RBrace) {
                break ;
            }
            match self.top_level_declaration() {
                Ok(decl) => {
                    decls.add(NodeChild::Node(decl));
                },
                // Fatal errors always bubble up.
                Err(ParsingError::Fatal) => { return Err(ParsingError::Fatal) },
                // Skip the declaration if its parse failed.
                Err(_) => {},
            }
        }

        self.expect_token(Tag::RBrace);

        let decls_node = decls.finish(false);
        let ghost gdecls = decls_node;
        proof {
            assert(node_wf(decls_node));
        }
        node.add(NodeChild::Node(decls_node));

        let n = node.finish(false);
        proof {
            let cs = n.kids();
            assert(cs.len() == 2);
            assert(child_wf(NodeChild::Token(ident)));
            assert(child_wf(NodeChild::Node(gdecls)));
            assert(node_wf(n));
        }
        Ok(n)
    }

    /// Parses `import seg.seg. ... .seg ;` into a list of the path's
    /// identifier tokens. It succeeds exactly on the well-formed
    /// paths, and the finished node holds exactly the path's segments;
    /// a malformed path is reported and synchronized past.
    pub fn import(&mut self) -> (r: Result<Node, ParsingError>)
        requires
            old(self).wf(),
            old(self).has_cur(),
            old(self).cur().tag == Tag::Import,
        ensures
            final(self).advanced_from(old(self)),
            final(self).pos > old(self).pos,
            r is Ok ==> wf_node(r->Ok_0, NodeType::ImportDecl),
            r is Err ==> final(self).errors@.len() > old(self).errors@.len(),
            r is Ok <==> import_path_from(old(self).tokens@, old(self).pos + 1, true),
            r is Ok ==> token_views(r->Ok_0.kids()) =~= import_segments(
                old(self).tokens@,
                old(self).pos + 1,
                true,
            ),
            r is Ok ==> final(self).errors == old(self).errors,
            r is Ok ==> final(self).pos == import_end(old(self).tokens@, old(self).pos + 1, true),
            r is Err ==> final(self).errors@.len() == old(self).errors@.len() + 1 && (final(self).errors@.last().kind == ParseErrorKind::Expected(Tag::Ident) || final(self).errors@.last().kind == ParseErrorKind::MalformedImportPath),
        decreases old(self).tokens@.len() - old(self).pos, 70int,
    {
        self.next();  // the `import` keyword
        let mut import_path = NodeBuilder::from_type(NodeType::ImportDecl);

        let mut needs_ident = true;
        let ghost start = old(self).pos + 1;

        loop
            invariant
                self.wf(),
                self.advanced_from(old(self)),
                self.pos > old(self).pos,
                self.errors == old(self).errors,
                start == old(self).pos + 1,
                start <= self.pos,
                import_path.kind.0 == NodeType::ImportDecl,
                forall|i: int|
                    0 <= i < import_path.children@.len() ==> elem_ok(
                        NodeType::ImportDecl,
                        #[trigger] import_path.children@[i],
                    ) && child_wf(import_path.children@[i]),
                !needs_ident ==> import_path.children@.len() > 0,
                import_path_from(self.tokens@, start, true) == import_path_from(
                    self.tokens@,
                    self.pos as int,
                    needs_ident,
                ),
                import_path_from(self.tokens@, start, true) ==> import_end(
                    self.tokens@,
                    start,
                    true,
                ) == import_end(self.tokens@, self.pos as int, needs_ident),
                import_path_from(self.tokens@, start, true) ==> import_segments(
                    self.tokens@,
                    start,
                    true,
                ) =~= token_views(import_path.children@) + import_segments(
                    self.tokens@,
                    self.pos as int,
                    needs_ident,
                ),
            decreases self.tokens@.len() - self.pos,
        {
            let tag = match self.peek() {
                Some(tok) => tok.tag,
                None => {
                    let l = self.loc(0);
                    self.add_error(ParseErrorKind::Expected(Tag::Ident), l);
                    return Err(ParsingError::Failed);
                },
            };
            if tag == Tag::Ident && needs_ident {
                let t = match self.next() {
                    Some(t) => t,
                    None => unreached(),
                };
                let ghost snapshot = import_path.children@;
                import_path.add(NodeChild::Token(t));
                proof {
                    assert(token_views(import_path.children@) =~= token_views(snapshot).push(t@));
                }
                needs_ident = false;
            } else if tag == Tag::Dot && !needs_ident {
                self.next();
                needs_ident = true;
            } else if tag == Tag::Semicolon && !needs_ident {
                self.next();
                let n = import_path.finish(false);
                proof {
                    assert(node_wf(n));
                    assert(token_views(n.kids()) =~= token_views(import_path.children@));
                }
                return Ok(n);
            } else {
                let l = self.loc(1);
                self.add_error(ParseErrorKind::MalformedImportPath, l);
                self.decl_synchronize();
                return Err(ParsingError::Failed);
            }
        }
    }

    /// Panic-mode recovery between declarations: discards every token
    /// up to the first checkpoint. The given checkpoint token is
    /// consumed; the leading keyword of a new declaration is left
    /// unconsumed (the declaration dispatch always peeks them). The
    /// discarded region holds no earlier checkpoint or keyword.
    /// Returns whether the input ran out instead — the structural
    /// collapse the caller escalates.
    pub fn decl_synchronize_generic(&mut self, closer: Tag) -> (eof: bool)
        requires
            old(self).wf(),
        ensures
            final(self).advanced_from(old(self)),
            final(self).errors == old(self).errors,
            eof ==> final(self).pos == final(self).tokens@.len() && decl_sync_clean(
                final(self).tokens@,
                old(self).pos as int,
                final(self).pos as int,
                closer,
            ),
            !eof ==> ({
                &&& final(self).pos > old(self).pos
                &&& final(self).tokens@[final(self).pos - 1].tag == closer
                &&& decl_sync_clean(final(self).tokens@, old(self).pos as int, final(self).pos - 1, closer)
            } || {
                &&& final(self).has_cur()
                &&& spec_decl_leading(final(self).cur().tag)
                &&& decl_sync_clean(final(self).tokens@, old(self).pos as int, final(self).pos as int, closer)
            }),
        decreases old(self).tokens@.len() - old(self).pos, 10int,
    {
        loop
            invariant
                self.wf(),
                self.advanced_from(old(self)),
                self.errors == old(self).errors,
                decl_sync_clean(self.tokens@, old(self).pos as int, self.pos as int, closer),
            decreases self.tokens@.len() - self.pos,
        {
            let tag = match self.peek() {
                Some(tok) => tok.tag,
                None => { return true },
            };
            if tag == closer {
                self.next();
                return false;
            }
            match tag {
                // The declaration dispatch always peeks leading
                // keywords, so they are left unconsumed.
                Tag::Module | Tag::Import | Tag::Enum | Tag::KwFn | Tag::Struct | Tag::Type
                | Tag::Const => { return false },
                _ => {
                    self.next();
                },
            }
        }
    }

    /// `decl_synchronize_generic` with the semicolon checkpoint.
    pub fn decl_synchronize(&mut self) -> (eof: bool)
        requires
            old(self).wf(),
        ensures
            final(self).advanced_from(old(self)),
            final(self).errors == old(self).errors,
            eof ==> final(self).pos == final(self).tokens@.len(),
            !eof ==> (final(self).pos > old(self).pos && final(self).tokens@[final(self).pos
                - 1].tag == Tag::Semicolon) || (final(self).has_cur() && spec_decl_leading(
                final(self).cur().tag,
            )),
        decreases old(self).tokens@.len() - old(self).pos, 11int,
    {
        self.decl_synchronize_generic(Tag::Semicolon)
    }

    /// Parses `type name = type_expr`.
    pub fn type_alias(&mut self) -> (r: Result<Node, ParsingError>)
        requires
            old(self).wf(),
            old(self).has_cur(),
            old(self).cur().tag == Tag::Type,
        ensures
            final(self).advanced_from(old(self)),
            final(self).pos > old(self).pos,
            r is Ok ==> wf_node(r->Ok_0, NodeType::TypeAlias),
            r is Err ==> final(self).errors@.len() > old(self).errors@.len(),
            old(self).pos + 3 < old(self).tokens@.len() && old(self).tokens@[old(self).pos
                + 1].tag == Tag::Ident && old(self).tokens@[old(self).pos + 2].tag == Tag::Equal
                && old(self).tokens@[old(self).pos + 3].tag == Tag::Ident ==> r is Ok && final(self).pos == old(self).pos + 4 && final(self).errors == old(self).errors
                && r->Ok_0.kids()[0]->Token_0@ == old(self).tokens@[old(self).pos + 1]@
                && r->Ok_0.kids()[1]->Token_0@ == old(self).tokens@[old(self).pos + 3]@,
        decreases old(self).tokens@.len() - old(self).pos, 50int,
    {
        self.next();  // the `type` keyword
        let mut node = NodeBuilder::from_type(NodeType::TypeAlias);

        let ident = self.expect_token(Tag::Ident);
        node.add(NodeChild::Token(ident));

        self.expect_token(Tag::Equal);

        let type_value = match self.type_expr() {
            // The type parse reported its own diagnostics already.
            Err(ParsingError::Failed) => {
                self.decl_synchronize();
                return Err(ParsingError::Failed);
            },
            Err(e) => { return Err(e) },
            Ok(t) => t,
        };
        node.add(type_value);

        let n = node.finish(false);
        proof {
            let cs = n.kids();
            assert(cs.len() == 2);
            assert(child_wf(NodeChild::Token(ident)));
            assert(child_wf(type_value));
            assert(node_wf(n));
        }
        Ok(n)
    }

    /// Parses `const name : type = value`.
    pub fn const_decl(&mut self) -> (r: Result<Node, ParsingError>)
        requires
            old(self).wf(),
            old(self).has_cur(),
            old(self).cur().tag == Tag::Const,
        ensures
            final(self).advanced_from(old(self)),
            final(self).pos > old(self).pos,
            r is Ok ==> wf_node(r->Ok_0, NodeType::ConstDecl),
            r is Err ==> final(self).errors@.len() > old(self).errors@.len(),
            old(self).pos + 4 < old(self).tokens@.len() && old(self).tokens@[old(self).pos
                + 1].tag == Tag::Ident && old(self).tokens@[old(self).pos + 2].tag == Tag::Colon
                && old(self).tokens@[old(self).pos + 3].tag == Tag::Ident && old(self).tokens@[old(self).pos + 4].tag == Tag::Equal && crate::grammar::expr::spec_atom_expr_at(
                old(self).tokens@,
                old(self).pos + 5,
                crate::grammar::expr::Stop::Nothing,
            ) ==> r is Ok && final(self).pos == old(self).pos + 6 && final(self).errors == old(self).errors && r->Ok_0.kids()[0]->Token_0@ == old(self).tokens@[old(self).pos + 1]@
                && r->Ok_0.kids()[1]->Token_0@ == old(self).tokens@[old(self).pos + 3]@
                && r->Ok_0.kids()[2]->Token_0@ == old(self).tokens@[old(self).pos + 5]@,
        decreases old(self).tokens@.len() - old(self).pos, 50int,
    {
        self.next();  // the `const` keyword
        let mut node = NodeBuilder::from_type(NodeType::ConstDecl);

        let ident = self.expect_token(Tag::Ident);
        node.add(NodeChild::Token(ident));

        self.expect_token(Tag::Colon);
        let const_type = match self.type_expr() {
            Ok(t) => t,
            Err(e) => { return Err(e) },
        };
        node.add(const_type);

        self.expect_token(Tag::Equal);

        let value = match self.expr() {
            Err(ParsingError::Failed) => {
                self.decl_synchronize();
                return Err(ParsingError::Failed);
            },
            Err(e) => { return Err(e) },
            Ok(v) => v,
        };
        node.add(value);

        let n = node.finish(false);
        proof {
            let cs = n.kids();
            assert(cs.len() == 3);
            assert(child_wf(NodeChild::Token(ident)));
            assert(child_wf(const_type));
            assert(child_wf(value));
            assert(node_wf(n));
        }
        Ok(n)
    }
}

} // verus!
