use vstd::prelude::*;

use crate::ast::{child_wf, elem_ok, node_wf, wf_node, Node, NodeBuilder, NodeChild, NodeType};
use crate::errors::{Loc, ParseError, ParseErrorKind, ParsingError};
use crate::grammar::top_level::ParamSyncStatus;
use crate::parser::Parser;
use crate::token::Tag;

verus! {

/// The one-parameter list pattern `Ident : Ident )`: the list parser
/// owes exactly that parameter, with no diagnostic.
pub open spec fn spec_one_param_at(toks: Seq<crate::token::Token>, i: int) -> bool {
    &&& 0 <= i
    &&& i + 3 < toks.len()
    &&& toks[i].tag == Tag::Ident
    &&& toks[i + 1].tag == Tag::Colon
    &&& toks[i + 2].tag == Tag::Ident
    &&& toks[i + 3].tag == Tag::RParen
}

/// The incomplete-parameter pattern `Ident )`: the parameter lacks
/// its type annotation, so the driver reports the incompleteness and
/// the missing colon — context before delegation — drops the
/// parameter, and closes the list.
pub open spec fn spec_incomplete_param_at(toks: Seq<crate::token::Token>, i: int) -> bool {
    &&& 0 <= i
    &&& i + 1 < toks.len()
    &&& toks[i].tag == Tag::Ident
    &&& toks[i + 1].tag == Tag::RParen
}

/// The region `[lo, hi)` of the token stream holds neither a comma
/// nor a closing parenthesis: exactly what a parameter-list
/// resynchronization may discard.
pub open spec fn param_sync_clean(toks: Seq<crate::token::Token>, lo: int, hi: int) -> bool {
    forall|j: int|
        lo <= j < hi ==> #[trigger] toks[j].tag != Tag::Comma && toks[j].tag != Tag::RParen
}

impl Parser {
    /// Parses `fn name ( params ) [-> type] [{ body }]`. The return
    /// type and the body are optional slots, filled with the
    /// placeholder when absent.
    pub fn function_def(&mut self) -> (r: Result<Node, ParsingError>)
        requires
            old(self).wf(),
            old(self).has_cur(),
            old(self).cur().tag == Tag::KwFn,
        ensures
            final(self).advanced_from(old(self)),
            final(self).pos > old(self).pos,
            r is Ok ==> wf_node(r->Ok_0, NodeType::FnDef),
            r is Err ==> final(self).errors@.len() > old(self).errors@.len(),
            old(self).pos + 5 < old(self).tokens@.len() && old(self).tokens@[old(self).pos
                + 1].tag == Tag::Ident && old(self).tokens@[old(self).pos + 2].tag == Tag::LParen
                && old(self).tokens@[old(self).pos + 3].tag == Tag::RParen && old(self).tokens@[old(self).pos + 4].tag == Tag::LBrace && old(self).tokens@[old(self).pos + 5].tag
                == Tag::RBrace ==> r is Ok && final(self).pos == old(self).pos + 6 && final(self).errors == old(self).errors && r->Ok_0.kids()[0]->Token_0@ == old(self).tokens@[old(self).pos + 1]@ && r->Ok_0.kids()[1]->Node_0.kind.0 == NodeType::ParamList
                && r->Ok_0.kids()[1]->Node_0.kids().len() == 0 && r->Ok_0.kids()[2]->Node_0.kind.0
                == NodeType::BlockExpr && crate::ast::c_absent(r->Ok_0.kids()[3]),
        decreases old(self).tokens@.len() - old(self).pos, 70int,
    {
        self.next();  // the `fn` keyword
        let mut node = NodeBuilder::from_type(NodeType::FnDef);

        let ident = self.expect_token(Tag::Ident);
        node.add(NodeChild::Token(ident));

        let tag = match self.peek() {
            Some(tok) => tok.tag,
            None => {
                let l = self.loc(0);
                self.add_error(ParseErrorKind::ExpectedFunctionParameters, l);
                let l2 = self.loc(0);
                self.add_error(ParseErrorKind::UnexpectedEOF, l2);
                return Err(ParsingError::Failed);
            },
        };
        let parameters: Node;
        if tag == Tag::LParen {
            self.next();
            parameters = match self.function_params() {
                Ok(p) => p,
                Err(e) => { return Err(e) },
            };
        } else {
            let l = self.loc(1);
            self.add_error(ParseErrorKind::ExpectedFunctionParameters, l);
            return Err(ParsingError::Failed);
        }
        node.add(NodeChild::Node(parameters));

        let mut return_type = NodeChild::Node(Node::null(NodeType::Any));
        if self.peek_is(Tag::Arrow) {
            self.next();
            return_type = match self.type_expr() {
                Ok(t) => t,
                Err(e) => { return Err(e) },
            };
        }

        let mut body = NodeChild::Node(Node::null(NodeType::Any));
        if self.peek_is(Tag::LBrace) {
            self.next();
            body = match self.block_expr() {
                Ok(b) => NodeChild::Node(b),
                Err(e) => { return Err(e) },
            };
        }

        let ghost gparams = parameters;
        let ghost gbody = body;
        let ghost gret = return_type;
        node.add(body);
        node.add(return_type);

        let n = node.finish(false);
        proof {
            let cs = n.kids();
            assert(cs.len() == 4);
            assert(child_wf(NodeChild::Token(ident)));
            assert(child_wf(NodeChild::Node(gparams)));
            assert(child_wf(gbody));
            assert(child_wf(gret));
            assert(node_wf(n));
        }
        Ok(n)
    }

    /// Parses a parameter list up to and including the closing
    /// parenthesis; the opening one is already consumed. A parameter
    /// without its `: type` annotation is reported and dropped, and
    /// the list resynchronizes at the next comma or the closer.
    pub fn function_params(&mut self) -> (r: Result<Node, ParsingError>)
        requires
            old(self).wf(),
        ensures
            final(self).advanced_from(old(self)),
            r is Ok ==> wf_node(r->Ok_0, NodeType::ParamList) || (r->Ok_0.kind.0
                == NodeType::ParamList && r->Ok_0.children is None),
            r is Err ==> final(self).errors@.len() > old(self).errors@.len(),
            old(self).has_cur() && old(self).cur().tag == Tag::RParen ==> r is Ok && final(self).pos == old(self).pos + 1 && final(self).errors == old(self).errors
                && r->Ok_0.kind.0 == NodeType::ParamList && r->Ok_0.kids().len() == 0,
            spec_one_param_at(old(self).tokens@, old(self).pos as int) ==> r is Ok && final(self).pos == old(self).pos + 4 && final(self).errors == old(self).errors
                && r->Ok_0.kids().len() == 1 && r->Ok_0.kids()[0]->Node_0.kids()[0]->Token_0@
                == old(self).tokens@[old(self).pos as int]@
                && r->Ok_0.kids()[0]->Node_0.kids()[1]->Token_0@ == old(self).tokens@[old(self).pos + 2]@,
            spec_incomplete_param_at(old(self).tokens@, old(self).pos as int) ==> r is Ok && final(self).pos == old(self).pos + 2 && r->Ok_0.kids().len() == 0 && final(self).errors@
                == old(self).errors@.push(
                ParseError {
                    kind: ParseErrorKind::ParamIncomplete,
                    location: (Loc {
                        start: old(self).tokens@[old(self).pos + 1].pos,
                        len: 1,
                        line: old(self).tokens@[old(self).pos + 1].line,
                    }),
                },
            ).push(
                ParseError {
                    kind: ParseErrorKind::ExpectedColon,
                    location: (Loc {
                        start: old(self).tokens@[old(self).pos + 1].pos,
                        len: 1,
                        line: old(self).tokens@[old(self).pos + 1].line,
                    }),
                },
            ),
        decreases old(self).tokens@.len() - old(self).pos, 65int,
    {
        let mut params = NodeBuilder::from_type(NodeType::ParamList);

        if self.peek_is(Tag::RParen) {
            self.next();
            return Ok(params.finish(false));
        }

        loop
            invariant_except_break
                spec_one_param_at(old(self).tokens@, old(self).pos as int) ==> self.pos == old(self).pos && params.children@.len() == 0 && self.errors == old(self).errors,
                spec_incomplete_param_at(old(self).tokens@, old(self).pos as int) ==> self.pos
                    == old(self).pos && params.children@.len() == 0 && self.errors == old(self).errors,
            invariant
                self.wf(),
                self.advanced_from(old(self)),
                !(old(self).has_cur() && old(self).cur().tag == Tag::RParen),
                params.kind.0 == NodeType::ParamList,
                forall|i: int|
                    0 <= i < params.children@.len() ==> elem_ok(
                        NodeType::ParamList,
                        #[trigger] params.children@[i],
                    ) && child_wf(params.children@[i]),
            ensures
                spec_incomplete_param_at(old(self).tokens@, old(self).pos as int) ==> self.pos
                    == old(self).pos + 2 && params.children@.len() == 0 && self.errors@ == old(self).errors@.push(
                    ParseError {
                        kind: ParseErrorKind::ParamIncomplete,
                        location: (Loc {
                            start: old(self).tokens@[old(self).pos + 1].pos,
                            len: 1,
                            line: old(self).tokens@[old(self).pos + 1].line,
                        }),
                    },
                ).push(
                    ParseError {
                        kind: ParseErrorKind::ExpectedColon,
                        location: (Loc {
                            start: old(self).tokens@[old(self).pos + 1].pos,
                            len: 1,
                            line: old(self).tokens@[old(self).pos + 1].line,
                        }),
                    },
                ),
                spec_one_param_at(old(self).tokens@, old(self).pos as int) ==> self.pos == old(self).pos + 4 && params.children@.len() == 1 && self.errors == old(self).errors
                    && params.children@[0]->Node_0.kids().len() == 2
                    && params.children@[0]->Node_0.kids()[0]->Token_0@ == old(self).tokens@[old(self).pos as int]@ && params.children@[0]->Node_0.kids()[1]->Token_0@
                    == old(self).tokens@[old(self).pos + 2]@,
            decreases self.tokens@.len() - self.pos,
        {
            let mut param = NodeBuilder::from_type(NodeType::Param);
            let ident = self.expect_token(Tag::Ident);
            param.add(NodeChild::Token(ident));

            let tag = match self.peek() {
                Some(tok) => tok.tag,
                None => {
                    let l = self.loc(0);
                    self.add_error(ParseErrorKind::UnexpectedEOF, l);
                    return Err(ParsingError::Failed);
                },
            };
            if tag == Tag::Colon {
                self.next();
                let param_type = match self.type_expr() {
                    Ok(t) => t,
                    Err(e) => { return Err(e) },
                };
                param.add(param_type);
            } else {
                let l = self.loc(1);
                self.add_error(ParseErrorKind::ParamIncomplete, l);
                let l2 = self.loc(1);
                self.add_error(ParseErrorKind::ExpectedColon, l2);
                match self.param_synchronize() {
                    ParamSyncStatus::FoundComma => {
                        self.next();
                        continue ;
                    },
                    ParamSyncStatus::FoundClosingParen => {
                        self.next();
                        return Ok(params.finish(false));
                    },
                    ParamSyncStatus::EOF => { return Err(ParsingError::Failed) },
                }
            }

            let p = param.finish(false);
            proof {
                let cs = p.kids();
                assert(cs.len() == 2);
                assert(child_wf(cs[0]));
                assert(child_wf(cs[1]));
                assert(node_wf(p));
            }
            params.add(NodeChild::Node(p));

            if self.peek_is(Tag::Comma) {
                self.next();
                continue ;
            }
            if self.peek_is(Tag::RParen) {
                self.next();
                break ;
            }
        }

        let n = params.finish(false);
        proof {
            assert(node_wf(n));
        }
        Ok(n)
    }

    /// Resynchronizes inside a parameter list: discards every token
    /// before the next comma or the closing parenthesis, both left
    /// unconsumed; the discarded region holds neither.
    pub fn param_synchronize(&mut self) -> (r: ParamSyncStatus)
        requires
            old(self).wf(),
        ensures
            final(self).advanced_from(old(self)),
            final(self).errors == old(self).errors,
            param_sync_clean(final(self).tokens@, old(self).pos as int, final(self).pos as int),
            r is FoundComma ==> final(self).has_cur() && final(self).cur().tag == Tag::Comma,
            r is FoundClosingParen ==> final(self).has_cur() && final(self).cur().tag
                == Tag::RParen,
            r is EOF ==> final(self).pos == final(self).tokens@.len(),
            old(self).has_cur() && old(self).cur().tag == Tag::Comma ==> r is FoundComma
                && final(self).pos == old(self).pos,
            old(self).has_cur() && old(self).cur().tag == Tag::RParen ==> r is FoundClosingParen
                && final(self).pos == old(self).pos,
        decreases old(self).tokens@.len() - old(self).pos, 10int,
    {
        loop
            invariant
                self.wf(),
                self.advanced_from(old(self)),
                self.errors == old(self).errors,
                param_sync_clean(self.tokens@, old(self).pos as int, self.pos as int),
            decreases self.tokens@.len() - self.pos,
        {
            let tag = match self.peek() {
                Some(tok) => tok.tag,
                None => { return ParamSyncStatus::EOF },
            };
            if tag == Tag::Comma {
                return ParamSyncStatus::FoundComma;
            }
            if tag == Tag::RParen {
                return ParamSyncStatus::FoundClosingParen;
            }
            self.next();
        }
    }
}

} // verus!
