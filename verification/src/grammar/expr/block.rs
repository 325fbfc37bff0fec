use vstd::prelude::*;

use crate::ast::{child_wf, elem_ok, node_wf, wf_node, Node, NodeBuilder, NodeChild, NodeType};
use crate::errors::{ParseError, ParseErrorKind, ParsingError};
use crate::parser::Parser;
use crate::token::Tag;

verus! {

impl Parser {
    /// Parses the statements of a block up to and including the
    /// closing brace; the opening brace is already consumed. A
    /// statement that fails locally is dropped and parsing resumes at
    /// the synchronization point its parse reached.
    pub fn block_expr(&mut self) -> (r: Result<Node, ParsingError>)
        requires
            old(self).wf(),
        ensures
            final(self).advanced_from(old(self)),
            r is Ok ==> wf_node(r->Ok_0, NodeType::BlockExpr),
            r is Err ==> final(self).errors@.len() > old(self).errors@.len(),
            old(self).has_cur() && old(self).cur().tag == Tag::RBrace ==> r is Ok && final(self).pos == old(self).pos + 1 && final(self).errors == old(self).errors,
            !old(self).has_cur() ==> r is Ok && final(self).pos == old(self).pos && final(self).errors@ == old(self).errors@.push(
                ParseError {
                    kind: ParseErrorKind::ExpectedRBrace,
                    location: old(self).spec_loc(0),
                },
            ).push(
                ParseError {
                    kind: ParseErrorKind::UnexpectedEOF,
                    location: old(self).spec_loc(0),
                },
            ),
        decreases old(self).tokens@.len() - old(self).pos, 70int,
    {
        let mut node = NodeBuilder::from_type(NodeType::BlockExpr);
        let mut stmts = NodeBuilder::from_type(NodeType::StmtList);

        if self.peek_is_none() {
            // The block was cut short by the end of the input: report
            // both the missing closer and the exhaustion, but still
            // hand back a block, as error tolerance asks.
            let l = self.loc(0);
            self.add_error(ParseErrorKind::ExpectedRBrace, l);
            let l2 = self.loc(0);
            self.add_error(ParseErrorKind::UnexpectedEOF, l2);
            node.add(NodeChild::Node(stmts.finish(false)));
            let n = node.finish(false);
            proof {
                let cs = n.kids();
                assert(cs.len() == 1);
                assert(child_wf(cs[0]));
                assert(node_wf(n));
            }
            return Ok(n);
        }

        if self.peek_is(Tag::RBrace) {
            // The deliberately empty block: a null statement list.
            self.next();
            node.add(NodeChild::Node(stmts.finish(false)));
            let n = node.finish(false);
            proof {
                let cs = n.kids();
                assert(cs.len() == 1);
                assert(child_wf(cs[0]));
                assert(node_wf(n));
            }
            return Ok(n);
        }

        loop
            invariant
                self.wf(),
                self.advanced_from(old(self)),
                !(old(self).has_cur() && old(self).cur().tag == Tag::RBrace),
                stmts.kind.0 == NodeType::StmtList,
                forall|i: int|
                    0 <= i < stmts.children@.len() ==> elem_ok(
                        NodeType::StmtList,
                        #[trigger] stmts.children@[i],
                    ) && child_wf(stmts.children@[i]),
            decreases self.tokens@.len() - self.pos,
        {
            let tag = match self.peek() {
                Some(tok) => tok.tag,
                None => {
                    let l = self.loc(0);
                    self.add_error(ParseErrorKind::ExpectedRBrace, l);
                    let l2 = self.loc(0);
                    self.add_error(ParseErrorKind::UnexpectedEOF, l2);
                    break ;
                },
            };
            if tag == Tag::RBrace {
                self.next();
                break ;
            }
            match self.statement() {
                Ok(stmt) => {
                    stmts.add(stmt);
                },
                Err(ParsingError::Failed) => {
                    // The statement's own parse synchronized already;
                    // the next attempt starts at the checkpoint it found.
                },
                Err(e) => { return Err(e) },
            }
        }

        let stmts_node = stmts.finish(false);
        let ghost gstmts = stmts_node;
        proof {
            assert(node_wf(stmts_node));
        }
        node.add(NodeChild::Node(stmts_node));
        let n = node.finish(false);
        proof {
            let cs = n.kids();
            assert(cs.len() == 1);
            assert(child_wf(NodeChild::Node(gstmts)));
            assert(node_wf(n));
        }
        Ok(n)
    }
}

} // verus!
