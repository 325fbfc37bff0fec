use vstd::prelude::*;

use crate::ast::{
    c_absent, c_binop, c_block, c_expr, c_ident, c_if_alt, c_list, c_name, c_opt_expr, c_opt_type,
    c_stmt, c_tok_or_empty, c_top_decl, c_type, c_unop, child_wf, elem_ok, is_expr_kind,
    is_top_decl_kind, is_type_kind, list_kind, node_wf, slots_ok, Node, NodeChild, NodeType,
};
use crate::token::{Tag, Token};

verus! {

/// A typed view over a token standing for an identifier; the empty token
/// stands in where the token was required but absent.
#[derive(Debug, Clone, Copy)]
pub struct Ident<'t> {
    pub token: &'t Token,
}

impl<'t> Ident<'t> {
    pub open spec fn wf(self) -> bool {
        self.token.tag == Tag::Ident || self.token.spec_is_empty()
    }

    /// Wraps a raw token as this concrete construct; a mismatched tag
    /// is a programming defect, not a parse error.
    pub fn cast(token: &'t Token) -> (r: Ident<'t>)
        requires
            token.tag == Tag::Ident || token.spec_is_empty(),
        ensures
            r.token == token,
            r.wf(),
    {
        Ident { token }
    }

    /// The raw token this view wraps, for round-tripping.
    pub fn token(&self) -> (r: &'t Token)
        ensures
            r == self.token,
    {
        self.token
    }
}

/// A typed view over a token standing for a string literal; the empty token
/// stands in where the token was required but absent.
#[derive(Debug, Clone, Copy)]
pub struct Str<'t> {
    pub token: &'t Token,
}

impl<'t> Str<'t> {
    pub open spec fn wf(self) -> bool {
        self.token.tag == Tag::Str || self.token.spec_is_empty()
    }

    /// Wraps a raw token as this concrete construct; a mismatched tag
    /// is a programming defect, not a parse error.
    pub fn cast(token: &'t Token) -> (r: Str<'t>)
        requires
            token.tag == Tag::Str || token.spec_is_empty(),
        ensures
            r.token == token,
            r.wf(),
    {
        Str { token }
    }

    /// The raw token this view wraps, for round-tripping.
    pub fn token(&self) -> (r: &'t Token)
        ensures
            r == self.token,
    {
        self.token
    }
}

/// A typed view over a token standing for a boolean literal; the empty token
/// stands in where the token was required but absent.
#[derive(Debug, Clone, Copy)]
pub struct Bool<'t> {
    pub token: &'t Token,
}

impl<'t> Bool<'t> {
    pub open spec fn wf(self) -> bool {
        self.token.tag == Tag::Bool || self.token.spec_is_empty()
    }

    /// Wraps a raw token as this concrete construct; a mismatched tag
    /// is a programming defect, not a parse error.
    pub fn cast(token: &'t Token) -> (r: Bool<'t>)
        requires
            token.tag == Tag::Bool || token.spec_is_empty(),
        ensures
            r.token == token,
            r.wf(),
    {
        Bool { token }
    }

    /// The raw token this view wraps, for round-tripping.
    pub fn token(&self) -> (r: &'t Token)
        ensures
            r == self.token,
    {
        self.token
    }
}

/// A typed view over a token standing for a number literal; the empty token
/// stands in where the token was required but absent.
#[derive(Debug, Clone, Copy)]
pub struct Int<'t> {
    pub token: &'t Token,
}

impl<'t> Int<'t> {
    pub open spec fn wf(self) -> bool {
        self.token.tag == Tag::Number || self.token.spec_is_empty()
    }

    /// Wraps a raw token as this concrete construct; a mismatched tag
    /// is a programming defect, not a parse error.
    pub fn cast(token: &'t Token) -> (r: Int<'t>)
        requires
            token.tag == Tag::Number || token.spec_is_empty(),
        ensures
            r.token == token,
            r.wf(),
    {
        Int { token }
    }

    /// The raw token this view wraps, for round-tripping.
    pub fn token(&self) -> (r: &'t Token)
        ensures
            r == self.token,
    {
        self.token
    }
}

/// A typed view over a token standing for an empty statement (a lone semicolon); the empty token
/// stands in where the token was required but absent.
#[derive(Debug, Clone, Copy)]
pub struct EmptyStmt<'t> {
    pub token: &'t Token,
}

impl<'t> EmptyStmt<'t> {
    pub open spec fn wf(self) -> bool {
        self.token.tag == Tag::Semicolon || self.token.spec_is_empty()
    }

    /// Wraps a raw token as this concrete construct; a mismatched tag
    /// is a programming defect, not a parse error.
    pub fn cast(token: &'t Token) -> (r: EmptyStmt<'t>)
        requires
            token.tag == Tag::Semicolon || token.spec_is_empty(),
        ensures
            r.token == token,
            r.wf(),
    {
        EmptyStmt { token }
    }

    /// The raw token this view wraps, for round-tripping.
    pub fn token(&self) -> (r: &'t Token)
        ensures
            r == self.token,
    {
        self.token
    }
}

/// A typed view over a parenthesized expression.
#[derive(Debug, Clone, Copy)]
pub struct Group<'b> {
    pub node: &'b Node,
}

impl<'b> Group<'b> {
    pub open spec fn wf(self) -> bool {
        self.node.kind.0 == NodeType::Group && self.node.children is Some && node_wf(*self.node)
    }

    /// Wraps a raw node as this concrete construct; a mismatched kind
    /// is a programming defect, not a parse error.
    pub fn cast(node: &'b Node) -> (r: Group<'b>)
        requires
            node.kind.0 == NodeType::Group,
            node.children is Some,
            node_wf(*node),
        ensures
            r.node == node,
            r.wf(),
    {
        Group { node }
    }

    /// The raw node this view wraps, for round-tripping.
    pub fn node(&self) -> (r: &'b Node)
        ensures
            r == self.node,
    {
        self.node
    }

    /// The expression inside the parentheses.
    pub fn expr(&self) -> (r: Expr<'b>)
        requires
            self.wf(),
        ensures
            r.wf(),
            r.raw() == self.node.kids()[0],
    {
        let cs = self.node.children();
        proof {
            assert(child_wf(self.node.kids()[0]));
        }
        Expr::cast(&cs[0])
    }
}

/// A typed view over a binary operator expression.
#[derive(Debug, Clone, Copy)]
pub struct Infix<'b> {
    pub node: &'b Node,
}

impl<'b> Infix<'b> {
    pub open spec fn wf(self) -> bool {
        self.node.kind.0 == NodeType::Infix && self.node.children is Some && node_wf(*self.node)
    }

    /// Wraps a raw node as this concrete construct; a mismatched kind
    /// is a programming defect, not a parse error.
    pub fn cast(node: &'b Node) -> (r: Infix<'b>)
        requires
            node.kind.0 == NodeType::Infix,
            node.children is Some,
            node_wf(*node),
        ensures
            r.node == node,
            r.wf(),
    {
        Infix { node }
    }

    /// The raw node this view wraps, for round-tripping.
    pub fn node(&self) -> (r: &'b Node)
        ensures
            r == self.node,
    {
        self.node
    }

    /// The left operand.
    pub fn left(&self) -> (r: Expr<'b>)
        requires
            self.wf(),
        ensures
            r.wf(),
            r.raw() == self.node.kids()[0],
    {
        let cs = self.node.children();
        proof {
            assert(child_wf(self.node.kids()[0]));
        }
        Expr::cast(&cs[0])
    }

    /// The operator token.
    pub fn op(&self) -> (r: &'b Token)
        requires
            self.wf(),
        ensures
            self.node.kids()[1] == NodeChild::Token(*r),
    {
        let cs = self.node.children();
        match &cs[1] {
            NodeChild::Token(t) => t,
            NodeChild::Node(_) => unreached(),
        }
    }

    /// The right operand.
    pub fn right(&self) -> (r: Expr<'b>)
        requires
            self.wf(),
        ensures
            r.wf(),
            r.raw() == self.node.kids()[2],
    {
        let cs = self.node.children();
        proof {
            assert(child_wf(self.node.kids()[2]));
        }
        Expr::cast(&cs[2])
    }
}

/// A typed view over a unary operator expression.
#[derive(Debug, Clone, Copy)]
pub struct Prefix<'b> {
    pub node: &'b Node,
}

impl<'b> Prefix<'b> {
    pub open spec fn wf(self) -> bool {
        self.node.kind.0 == NodeType::Prefix && self.node.children is Some && node_wf(*self.node)
    }

    /// Wraps a raw node as this concrete construct; a mismatched kind
    /// is a programming defect, not a parse error.
    pub fn cast(node: &'b Node) -> (r: Prefix<'b>)
        requires
            node.kind.0 == NodeType::Prefix,
            node.children is Some,
            node_wf(*node),
        ensures
            r.node == node,
            r.wf(),
    {
        Prefix { node }
    }

    /// The raw node this view wraps, for round-tripping.
    pub fn node(&self) -> (r: &'b Node)
        ensures
            r == self.node,
    {
        self.node
    }

    /// The operator token.
    pub fn op(&self) -> (r: &'b Token)
        requires
            self.wf(),
        ensures
            self.node.kids()[0] == NodeChild::Token(*r),
    {
        let cs = self.node.children();
        match &cs[0] {
            NodeChild::Token(t) => t,
            NodeChild::Node(_) => unreached(),
        }
    }

    /// The operand.
    pub fn right(&self) -> (r: Expr<'b>)
        requires
            self.wf(),
        ensures
            r.wf(),
            r.raw() == self.node.kids()[1],
    {
        let cs = self.node.children();
        proof {
            assert(child_wf(self.node.kids()[1]));
        }
        Expr::cast(&cs[1])
    }
}

/// A typed view over a block expression.
#[derive(Debug, Clone, Copy)]
pub struct BlockExpr<'b> {
    pub node: &'b Node,
}

impl<'b> BlockExpr<'b> {
    pub open spec fn wf(self) -> bool {
        self.node.kind.0 == NodeType::BlockExpr && self.node.children is Some && node_wf(*self.node)
    }

    /// Wraps a raw node as this concrete construct; a mismatched kind
    /// is a programming defect, not a parse error.
    pub fn cast(node: &'b Node) -> (r: BlockExpr<'b>)
        requires
            node.kind.0 == NodeType::BlockExpr,
            node.children is Some,
            node_wf(*node),
        ensures
            r.node == node,
            r.wf(),
    {
        BlockExpr { node }
    }

    /// The raw node this view wraps, for round-tripping.
    pub fn node(&self) -> (r: &'b Node)
        ensures
            r == self.node,
    {
        self.node
    }

    /// The block's statement list.
    pub fn body(&self) -> (r: StmtList<'b>)
        requires
            self.wf(),
        ensures
            r.wf(),
            self.node.kids()[0] == NodeChild::Node(*r.node),
    {
        let cs = self.node.children();
        proof {
            assert(child_wf(self.node.kids()[0]));
        }
        match &cs[0] {
            NodeChild::Node(n) => StmtList::cast(n),
            NodeChild::Token(_) => unreached(),
        }
    }
}

/// A typed view over an if-expression.
#[derive(Debug, Clone, Copy)]
pub struct IfExpr<'b> {
    pub node: &'b Node,
}

impl<'b> IfExpr<'b> {
    pub open spec fn wf(self) -> bool {
        self.node.kind.0 == NodeType::IfExpr && self.node.children is Some && node_wf(*self.node)
    }

    /// Wraps a raw node as this concrete construct; a mismatched kind
    /// is a programming defect, not a parse error.
    pub fn cast(node: &'b Node) -> (r: IfExpr<'b>)
        requires
            node.kind.0 == NodeType::IfExpr,
            node.children is Some,
            node_wf(*node),
        ensures
            r.node == node,
            r.wf(),
    {
        IfExpr { node }
    }

    /// The raw node this view wraps, for round-tripping.
    pub fn node(&self) -> (r: &'b Node)
        ensures
            r == self.node,
    {
        self.node
    }

    /// The condition.
    pub fn condition(&self) -> (r: Expr<'b>)
        requires
            self.wf(),
        ensures
            r.wf(),
            r.raw() == self.node.kids()[0],
    {
        let cs = self.node.children();
        proof {
            assert(child_wf(self.node.kids()[0]));
        }
        Expr::cast(&cs[0])
    }

    /// The consequence block.
    pub fn consequence(&self) -> (r: BlockExpr<'b>)
        requires
            self.wf(),
        ensures
            r.wf(),
            self.node.kids()[1] == NodeChild::Node(*r.node),
    {
        let cs = self.node.children();
        proof {
            assert(child_wf(self.node.kids()[1]));
        }
        match &cs[1] {
            NodeChild::Node(n) => BlockExpr::cast(n),
            NodeChild::Token(_) => unreached(),
        }
    }

    /// The alternate, if one was parsed. An explicit `None` reports "no alternate"
    /// when the slot holds the placeholder.
    pub fn alternate(&self) -> (r: Option<IfAlt<'b>>)
        requires
            self.wf(),
        ensures
            r is Some <==> !c_absent(self.node.kids()[2]),
            r is Some ==> r->Some_0.wf() && self.node.kids()[2] == NodeChild::Node(r->Some_0.node_spec()),
    {
        let cs = self.node.children();
        proof {
            assert(child_wf(self.node.kids()[2]));
        }
        match &cs[2] {
            NodeChild::Node(n) => {
                if n.is_null() && n.kind.0 == NodeType::Any {
                    None
                } else {
                    Some(IfAlt::cast(n))
                }
            },
            NodeChild::Token(_) => unreached(),
        }
    }
}

/// A typed view over a while-expression.
#[derive(Debug, Clone, Copy)]
pub struct WhileExpr<'b> {
    pub node: &'b Node,
}

impl<'b> WhileExpr<'b> {
    pub open spec fn wf(self) -> bool {
        self.node.kind.0 == NodeType::WhileExpr && self.node.children is Some && node_wf(*self.node)
    }

    /// Wraps a raw node as this concrete construct; a mismatched kind
    /// is a programming defect, not a parse error.
    pub fn cast(node: &'b Node) -> (r: WhileExpr<'b>)
        requires
            node.kind.0 == NodeType::WhileExpr,
            node.children is Some,
            node_wf(*node),
        ensures
            r.node == node,
            r.wf(),
    {
        WhileExpr { node }
    }

    /// The raw node this view wraps, for round-tripping.
    pub fn node(&self) -> (r: &'b Node)
        ensures
            r == self.node,
    {
        self.node
    }

    /// The condition.
    pub fn condition(&self) -> (r: Expr<'b>)
        requires
            self.wf(),
        ensures
            r.wf(),
            r.raw() == self.node.kids()[0],
    {
        let cs = self.node.children();
        proof {
            assert(child_wf(self.node.kids()[0]));
        }
        Expr::cast(&cs[0])
    }

    /// The loop body.
    pub fn consequence(&self) -> (r: BlockExpr<'b>)
        requires
            self.wf(),
        ensures
            r.wf(),
            self.node.kids()[1] == NodeChild::Node(*r.node),
    {
        let cs = self.node.children();
        proof {
            assert(child_wf(self.node.kids()[1]));
        }
        match &cs[1] {
            NodeChild::Node(n) => BlockExpr::cast(n),
            NodeChild::Token(_) => unreached(),
        }
    }
}

/// A typed view over a return-expression.
#[derive(Debug, Clone, Copy)]
pub struct ReturnExpr<'b> {
    pub node: &'b Node,
}

impl<'b> ReturnExpr<'b> {
    pub open spec fn wf(self) -> bool {
        self.node.kind.0 == NodeType::ReturnExpr && self.node.children is Some && node_wf(*self.node)
    }

    /// Wraps a raw node as this concrete construct; a mismatched kind
    /// is a programming defect, not a parse error.
    pub fn cast(node: &'b Node) -> (r: ReturnExpr<'b>)
        requires
            node.kind.0 == NodeType::ReturnExpr,
            node.children is Some,
            node_wf(*node),
        ensures
            r.node == node,
            r.wf(),
    {
        ReturnExpr { node }
    }

    /// The raw node this view wraps, for round-tripping.
    pub fn node(&self) -> (r: &'b Node)
        ensures
            r == self.node,
    {
        self.node
    }

    /// The returned value, if any. `None` exactly when the slot holds the
    /// "legally absent" placeholder.
    pub fn value(&self) -> (r: Option<Expr<'b>>)
        requires
            self.wf(),
        ensures
            r is Some <==> !c_absent(self.node.kids()[0]),
            r is Some ==> r->Some_0.wf() && r->Some_0.raw() == self.node.kids()[0],
    {
        let cs = self.node.children();
        proof {
            assert(child_wf(self.node.kids()[0]));
        }
        let absent = match &cs[0] {
            NodeChild::Node(n) => n.is_null() && n.kind.0 == NodeType::Any,
            NodeChild::Token(_) => false,
        };
        if absent {
            None
        } else {
            Some(Expr::cast(&cs[0]))
        }
    }
}

/// A typed view over a break-expression.
#[derive(Debug, Clone, Copy)]
pub struct BreakExpr<'b> {
    pub node: &'b Node,
}

impl<'b> BreakExpr<'b> {
    pub open spec fn wf(self) -> bool {
        self.node.kind.0 == NodeType::BreakExpr && self.node.children is Some && node_wf(*self.node)
    }

    /// Wraps a raw node as this concrete construct; a mismatched kind
    /// is a programming defect, not a parse error.
    pub fn cast(node: &'b Node) -> (r: BreakExpr<'b>)
        requires
            node.kind.0 == NodeType::BreakExpr,
            node.children is Some,
            node_wf(*node),
        ensures
            r.node == node,
            r.wf(),
    {
        BreakExpr { node }
    }

    /// The raw node this view wraps, for round-tripping.
    pub fn node(&self) -> (r: &'b Node)
        ensures
            r == self.node,
    {
        self.node
    }

    /// The broken-out value, if any. `None` exactly when the slot holds the
    /// "legally absent" placeholder.
    pub fn value(&self) -> (r: Option<Expr<'b>>)
        requires
            self.wf(),
        ensures
            r is Some <==> !c_absent(self.node.kids()[0]),
            r is Some ==> r->Some_0.wf() && r->Some_0.raw() == self.node.kids()[0],
    {
        let cs = self.node.children();
        proof {
            assert(child_wf(self.node.kids()[0]));
        }
        let absent = match &cs[0] {
            NodeChild::Node(n) => n.is_null() && n.kind.0 == NodeType::Any,
            NodeChild::Token(_) => false,
        };
        if absent {
            None
        } else {
            Some(Expr::cast(&cs[0]))
        }
    }
}

/// A typed view over a continue-expression.
#[derive(Debug, Clone, Copy)]
pub struct ContinueExpr<'b> {
    pub node: &'b Node,
}

impl<'b> ContinueExpr<'b> {
    pub open spec fn wf(self) -> bool {
        self.node.kind.0 == NodeType::ContinueExpr && self.node.children is Some && node_wf(*self.node)
    }

    /// Wraps a raw node as this concrete construct; a mismatched kind
    /// is a programming defect, not a parse error.
    pub fn cast(node: &'b Node) -> (r: ContinueExpr<'b>)
        requires
            node.kind.0 == NodeType::ContinueExpr,
            node.children is Some,
            node_wf(*node),
        ensures
            r.node == node,
            r.wf(),
    {
        ContinueExpr { node }
    }

    /// The raw node this view wraps, for round-tripping.
    pub fn node(&self) -> (r: &'b Node)
        ensures
            r == self.node,
    {
        self.node
    }

    /// The label, with the empty token for none.
    pub fn label(&self) -> (r: Ident<'b>)
        requires
            self.wf(),
        ensures
            r.wf(),
            self.node.kids()[0] == NodeChild::Token(*r.token),
    {
        let cs = self.node.children();
        match &cs[0] {
            NodeChild::Token(t) => Ident::cast(t),
            NodeChild::Node(_) => unreached(),
        }
    }
}

/// A typed view over an assignment expression.
#[derive(Debug, Clone, Copy)]
pub struct AssignExpr<'b> {
    pub node: &'b Node,
}

impl<'b> AssignExpr<'b> {
    pub open spec fn wf(self) -> bool {
        self.node.kind.0 == NodeType::AssignExpr && self.node.children is Some && node_wf(*self.node)
    }

    /// Wraps a raw node as this concrete construct; a mismatched kind
    /// is a programming defect, not a parse error.
    pub fn cast(node: &'b Node) -> (r: AssignExpr<'b>)
        requires
            node.kind.0 == NodeType::AssignExpr,
            node.children is Some,
            node_wf(*node),
        ensures
            r.node == node,
            r.wf(),
    {
        AssignExpr { node }
    }

    /// The raw node this view wraps, for round-tripping.
    pub fn node(&self) -> (r: &'b Node)
        ensures
            r == self.node,
    {
        self.node
    }

    /// The assigned variable.
    pub fn ident(&self) -> (r: Ident<'b>)
        requires
            self.wf(),
        ensures
            r.wf(),
            self.node.kids()[0] == NodeChild::Token(*r.token),
    {
        let cs = self.node.children();
        match &cs[0] {
            NodeChild::Token(t) => Ident::cast(t),
            NodeChild::Node(_) => unreached(),
        }
    }

    /// The assigned value.
    pub fn value(&self) -> (r: Expr<'b>)
        requires
            self.wf(),
        ensures
            r.wf(),
            r.raw() == self.node.kids()[1],
    {
        let cs = self.node.children();
        proof {
            assert(child_wf(self.node.kids()[1]));
        }
        Expr::cast(&cs[1])
    }
}

/// A typed view over a call expression.
#[derive(Debug, Clone, Copy)]
pub struct CallExpr<'b> {
    pub node: &'b Node,
}

impl<'b> CallExpr<'b> {
    pub open spec fn wf(self) -> bool {
        self.node.kind.0 == NodeType::CallExpr && self.node.children is Some && node_wf(*self.node)
    }

    /// Wraps a raw node as this concrete construct; a mismatched kind
    /// is a programming defect, not a parse error.
    pub fn cast(node: &'b Node) -> (r: CallExpr<'b>)
        requires
            node.kind.0 == NodeType::CallExpr,
            node.children is Some,
            node_wf(*node),
        ensures
            r.node == node,
            r.wf(),
    {
        CallExpr { node }
    }

    /// The raw node this view wraps, for round-tripping.
    pub fn node(&self) -> (r: &'b Node)
        ensures
            r == self.node,
    {
        self.node
    }

    /// The called function's name.
    pub fn name(&self) -> (r: Ident<'b>)
        requires
            self.wf(),
        ensures
            r.wf(),
            self.node.kids()[0] == NodeChild::Token(*r.token),
    {
        let cs = self.node.children();
        match &cs[0] {
            NodeChild::Token(t) => Ident::cast(t),
            NodeChild::Node(_) => unreached(),
        }
    }

    /// The argument list.
    pub fn args(&self) -> (r: ArgList<'b>)
        requires
            self.wf(),
        ensures
            r.wf(),
            self.node.kids()[1] == NodeChild::Node(*r.node),
    {
        let cs = self.node.children();
        proof {
            assert(child_wf(self.node.kids()[1]));
        }
        match &cs[1] {
            NodeChild::Node(n) => ArgList::cast(n),
            NodeChild::Token(_) => unreached(),
        }
    }
}

/// A typed view over a method-call expression.
#[derive(Debug, Clone, Copy)]
pub struct MethodCall<'b> {
    pub node: &'b Node,
}

impl<'b> MethodCall<'b> {
    pub open spec fn wf(self) -> bool {
        self.node.kind.0 == NodeType::MethodCall && self.node.children is Some && node_wf(*self.node)
    }

    /// Wraps a raw node as this concrete construct; a mismatched kind
    /// is a programming defect, not a parse error.
    pub fn cast(node: &'b Node) -> (r: MethodCall<'b>)
        requires
            node.kind.0 == NodeType::MethodCall,
            node.children is Some,
            node_wf(*node),
        ensures
            r.node == node,
            r.wf(),
    {
        MethodCall { node }
    }

    /// The raw node this view wraps, for round-tripping.
    pub fn node(&self) -> (r: &'b Node)
        ensures
            r == self.node,
    {
        self.node
    }

    /// The receiver.
    pub fn receiver(&self) -> (r: Expr<'b>)
        requires
            self.wf(),
        ensures
            r.wf(),
            r.raw() == self.node.kids()[0],
    {
        let cs = self.node.children();
        proof {
            assert(child_wf(self.node.kids()[0]));
        }
        Expr::cast(&cs[0])
    }

    /// The method's name.
    pub fn method_name(&self) -> (r: Ident<'b>)
        requires
            self.wf(),
        ensures
            r.wf(),
            self.node.kids()[1] == NodeChild::Token(*r.token),
    {
        let cs = self.node.children();
        match &cs[1] {
            NodeChild::Token(t) => Ident::cast(t),
            NodeChild::Node(_) => unreached(),
        }
    }

    /// The argument list.
    pub fn args(&self) -> (r: ArgList<'b>)
        requires
            self.wf(),
        ensures
            r.wf(),
            self.node.kids()[2] == NodeChild::Node(*r.node),
    {
        let cs = self.node.children();
        proof {
            assert(child_wf(self.node.kids()[2]));
        }
        match &cs[2] {
            NodeChild::Node(n) => ArgList::cast(n),
            NodeChild::Token(_) => unreached(),
        }
    }
}

/// A typed view over an index expression.
#[derive(Debug, Clone, Copy)]
pub struct IndexExpr<'b> {
    pub node: &'b Node,
}

impl<'b> IndexExpr<'b> {
    pub open spec fn wf(self) -> bool {
        self.node.kind.0 == NodeType::IndexExpr && self.node.children is Some && node_wf(*self.node)
    }

    /// Wraps a raw node as this concrete construct; a mismatched kind
    /// is a programming defect, not a parse error.
    pub fn cast(node: &'b Node) -> (r: IndexExpr<'b>)
        requires
            node.kind.0 == NodeType::IndexExpr,
            node.children is Some,
            node_wf(*node),
        ensures
            r.node == node,
            r.wf(),
    {
        IndexExpr { node }
    }

    /// The raw node this view wraps, for round-tripping.
    pub fn node(&self) -> (r: &'b Node)
        ensures
            r == self.node,
    {
        self.node
    }

    /// The indexed container.
    pub fn container(&self) -> (r: Expr<'b>)
        requires
            self.wf(),
        ensures
            r.wf(),
            r.raw() == self.node.kids()[0],
    {
        let cs = self.node.children();
        proof {
            assert(child_wf(self.node.kids()[0]));
        }
        Expr::cast(&cs[0])
    }

    /// The index.
    pub fn index(&self) -> (r: Expr<'b>)
        requires
            self.wf(),
        ensures
            r.wf(),
            r.raw() == self.node.kids()[1],
    {
        let cs = self.node.children();
        proof {
            assert(child_wf(self.node.kids()[1]));
        }
        Expr::cast(&cs[1])
    }
}

/// A typed view over a field access.
#[derive(Debug, Clone, Copy)]
pub struct FieldAccessExpr<'b> {
    pub node: &'b Node,
}

impl<'b> FieldAccessExpr<'b> {
    pub open spec fn wf(self) -> bool {
        self.node.kind.0 == NodeType::FieldAccessExpr && self.node.children is Some && node_wf(*self.node)
    }

    /// Wraps a raw node as this concrete construct; a mismatched kind
    /// is a programming defect, not a parse error.
    pub fn cast(node: &'b Node) -> (r: FieldAccessExpr<'b>)
        requires
            node.kind.0 == NodeType::FieldAccessExpr,
            node.children is Some,
            node_wf(*node),
        ensures
            r.node == node,
            r.wf(),
    {
        FieldAccessExpr { node }
    }

    /// The raw node this view wraps, for round-tripping.
    pub fn node(&self) -> (r: &'b Node)
        ensures
            r == self.node,
    {
        self.node
    }

    /// The accessed value.
    pub fn parent(&self) -> (r: Expr<'b>)
        requires
            self.wf(),
        ensures
            r.wf(),
            r.raw() == self.node.kids()[0],
    {
        let cs = self.node.children();
        proof {
            assert(child_wf(self.node.kids()[0]));
        }
        Expr::cast(&cs[0])
    }

    /// The field's name.
    pub fn field_name(&self) -> (r: Ident<'b>)
        requires
            self.wf(),
        ensures
            r.wf(),
            self.node.kids()[1] == NodeChild::Token(*r.token),
    {
        let cs = self.node.children();
        match &cs[1] {
            NodeChild::Token(t) => Ident::cast(t),
            NodeChild::Node(_) => unreached(),
        }
    }
}

/// A typed view over a struct-literal expression.
#[derive(Debug, Clone, Copy)]
pub struct StructExpr<'b> {
    pub node: &'b Node,
}

impl<'b> StructExpr<'b> {
    pub open spec fn wf(self) -> bool {
        self.node.kind.0 == NodeType::StructExpr && self.node.children is Some && node_wf(*self.node)
    }

    /// Wraps a raw node as this concrete construct; a mismatched kind
    /// is a programming defect, not a parse error.
    pub fn cast(node: &'b Node) -> (r: StructExpr<'b>)
        requires
            node.kind.0 == NodeType::StructExpr,
            node.children is Some,
            node_wf(*node),
        ensures
            r.node == node,
            r.wf(),
    {
        StructExpr { node }
    }

    /// The raw node this view wraps, for round-tripping.
    pub fn node(&self) -> (r: &'b Node)
        ensures
            r == self.node,
    {
        self.node
    }

    /// The struct's name.
    pub fn name(&self) -> (r: Ident<'b>)
        requires
            self.wf(),
        ensures
            r.wf(),
            self.node.kids()[0] == NodeChild::Token(*r.token),
    {
        let cs = self.node.children();
        match &cs[0] {
            NodeChild::Token(t) => Ident::cast(t),
            NodeChild::Node(_) => unreached(),
        }
    }

    /// The field initializers.
    pub fn fields(&self) -> (r: FieldInitList<'b>)
        requires
            self.wf(),
        ensures
            r.wf(),
            self.node.kids()[1] == NodeChild::Node(*r.node),
    {
        let cs = self.node.children();
        proof {
            assert(child_wf(self.node.kids()[1]));
        }
        match &cs[1] {
            NodeChild::Node(n) => FieldInitList::cast(n),
            NodeChild::Token(_) => unreached(),
        }
    }
}

/// A typed view over one field initializer of a struct literal.
#[derive(Debug, Clone, Copy)]
pub struct FieldInit<'b> {
    pub node: &'b Node,
}

impl<'b> FieldInit<'b> {
    pub open spec fn wf(self) -> bool {
        self.node.kind.0 == NodeType::FieldInit && self.node.children is Some && node_wf(*self.node)
    }

    /// Wraps a raw node as this concrete construct; a mismatched kind
    /// is a programming defect, not a parse error.
    pub fn cast(node: &'b Node) -> (r: FieldInit<'b>)
        requires
            node.kind.0 == NodeType::FieldInit,
            node.children is Some,
            node_wf(*node),
        ensures
            r.node == node,
            r.wf(),
    {
        FieldInit { node }
    }

    /// The raw node this view wraps, for round-tripping.
    pub fn node(&self) -> (r: &'b Node)
        ensures
            r == self.node,
    {
        self.node
    }

    /// The field's name.
    pub fn name(&self) -> (r: Ident<'b>)
        requires
            self.wf(),
        ensures
            r.wf(),
            self.node.kids()[0] == NodeChild::Token(*r.token),
    {
        let cs = self.node.children();
        match &cs[0] {
            NodeChild::Token(t) => Ident::cast(t),
            NodeChild::Node(_) => unreached(),
        }
    }

    /// The field's value.
    pub fn value(&self) -> (r: Expr<'b>)
        requires
            self.wf(),
        ensures
            r.wf(),
            r.raw() == self.node.kids()[1],
    {
        let cs = self.node.children();
        proof {
            assert(child_wf(self.node.kids()[1]));
        }
        Expr::cast(&cs[1])
    }
}

/// A typed view over a function definition.
#[derive(Debug, Clone, Copy)]
pub struct FnDef<'b> {
    pub node: &'b Node,
}

impl<'b> FnDef<'b> {
    pub open spec fn wf(self) -> bool {
        self.node.kind.0 == NodeType::FnDef && self.node.children is Some && node_wf(*self.node)
    }

    /// Wraps a raw node as this concrete construct; a mismatched kind
    /// is a programming defect, not a parse error.
    pub fn cast(node: &'b Node) -> (r: FnDef<'b>)
        requires
            node.kind.0 == NodeType::FnDef,
            node.children is Some,
            node_wf(*node),
        ensures
            r.node == node,
            r.wf(),
    {
        FnDef { node }
    }

    /// The raw node this view wraps, for round-tripping.
    pub fn node(&self) -> (r: &'b Node)
        ensures
            r == self.node,
    {
        self.node
    }

    /// The function's name.
    pub fn name(&self) -> (r: Ident<'b>)
        requires
            self.wf(),
        ensures
            r.wf(),
            self.node.kids()[0] == NodeChild::Token(*r.token),
    {
        let cs = self.node.children();
        match &cs[0] {
            NodeChild::Token(t) => Ident::cast(t),
            NodeChild::Node(_) => unreached(),
        }
    }

    /// The parameter list.
    pub fn params(&self) -> (r: ParamList<'b>)
        requires
            self.wf(),
        ensures
            r.wf(),
            self.node.kids()[1] == NodeChild::Node(*r.node),
    {
        let cs = self.node.children();
        proof {
            assert(child_wf(self.node.kids()[1]));
        }
        match &cs[1] {
            NodeChild::Node(n) => ParamList::cast(n),
            NodeChild::Token(_) => unreached(),
        }
    }

    /// The body, if one was parsed. `None` exactly when the slot holds the
    /// "legally absent" placeholder.
    pub fn body(&self) -> (r: Option<BlockExpr<'b>>)
        requires
            self.wf(),
        ensures
            r is Some <==> !c_absent(self.node.kids()[2]),
            r is Some ==> r->Some_0.wf() && self.node.kids()[2] == NodeChild::Node(
                *r->Some_0.node,
            ),
    {
        let cs = self.node.children();
        proof {
            assert(child_wf(self.node.kids()[2]));
        }
        match &cs[2] {
            NodeChild::Node(n) => {
                if n.is_null() && n.kind.0 == NodeType::Any {
                    None
                } else {
                    Some(BlockExpr::cast(n))
                }
            },
            NodeChild::Token(_) => unreached(),
        }
    }

    /// The return-type annotation, if any. `None` exactly when the slot holds the
    /// "legally absent" placeholder.
    pub fn return_type(&self) -> (r: Option<TypeExpr<'b>>)
        requires
            self.wf(),
        ensures
            r is Some <==> !c_absent(self.node.kids()[3]),
            r is Some ==> r->Some_0.wf() && r->Some_0.raw() == self.node.kids()[3],
    {
        let cs = self.node.children();
        proof {
            assert(child_wf(self.node.kids()[3]));
        }
        let absent = match &cs[3] {
            NodeChild::Node(n) => n.is_null() && n.kind.0 == NodeType::Any,
            NodeChild::Token(_) => false,
        };
        if absent {
            None
        } else {
            Some(TypeExpr::cast(&cs[3]))
        }
    }
}

/// A typed view over a variable declaration.
#[derive(Debug, Clone, Copy)]
pub struct VarDecl<'b> {
    pub node: &'b Node,
}

impl<'b> VarDecl<'b> {
    pub open spec fn wf(self) -> bool {
        self.node.kind.0 == NodeType::VarDecl && self.node.children is Some && node_wf(*self.node)
    }

    /// Wraps a raw node as this concrete construct; a mismatched kind
    /// is a programming defect, not a parse error.
    pub fn cast(node: &'b Node) -> (r: VarDecl<'b>)
        requires
            node.kind.0 == NodeType::VarDecl,
            node.children is Some,
            node_wf(*node),
        ensures
            r.node == node,
            r.wf(),
    {
        VarDecl { node }
    }

    /// The raw node this view wraps, for round-tripping.
    pub fn node(&self) -> (r: &'b Node)
        ensures
            r == self.node,
    {
        self.node
    }

    /// The declared name.
    pub fn name(&self) -> (r: Ident<'b>)
        requires
            self.wf(),
        ensures
            r.wf(),
            self.node.kids()[0] == NodeChild::Token(*r.token),
    {
        let cs = self.node.children();
        match &cs[0] {
            NodeChild::Token(t) => Ident::cast(t),
            NodeChild::Node(_) => unreached(),
        }
    }

    /// The type annotation, if any. `None` exactly when the slot holds the
    /// "legally absent" placeholder.
    pub fn var_type(&self) -> (r: Option<TypeExpr<'b>>)
        requires
            self.wf(),
        ensures
            r is Some <==> !c_absent(self.node.kids()[1]),
            r is Some ==> r->Some_0.wf() && r->Some_0.raw() == self.node.kids()[1],
    {
        let cs = self.node.children();
        proof {
            assert(child_wf(self.node.kids()[1]));
        }
        let absent = match &cs[1] {
            NodeChild::Node(n) => n.is_null() && n.kind.0 == NodeType::Any,
            NodeChild::Token(_) => false,
        };
        if absent {
            None
        } else {
            Some(TypeExpr::cast(&cs[1]))
        }
    }

    /// The initializer, if any. `None` exactly when the slot holds the
    /// "legally absent" placeholder.
    pub fn value(&self) -> (r: Option<Expr<'b>>)
        requires
            self.wf(),
        ensures
            r is Some <==> !c_absent(self.node.kids()[2]),
            r is Some ==> r->Some_0.wf() && r->Some_0.raw() == self.node.kids()[2],
    {
        let cs = self.node.children();
        proof {
            assert(child_wf(self.node.kids()[2]));
        }
        let absent = match &cs[2] {
            NodeChild::Node(n) => n.is_null() && n.kind.0 == NodeType::Any,
            NodeChild::Token(_) => false,
        };
        if absent {
            None
        } else {
            Some(Expr::cast(&cs[2]))
        }
    }
}

/// A typed view over an expression statement.
#[derive(Debug, Clone, Copy)]
pub struct ExprStmt<'b> {
    pub node: &'b Node,
}

impl<'b> ExprStmt<'b> {
    pub open spec fn wf(self) -> bool {
        self.node.kind.0 == NodeType::ExprStmt && self.node.children is Some && node_wf(*self.node)
    }

    /// Wraps a raw node as this concrete construct; a mismatched kind
    /// is a programming defect, not a parse error.
    pub fn cast(node: &'b Node) -> (r: ExprStmt<'b>)
        requires
            node.kind.0 == NodeType::ExprStmt,
            node.children is Some,
            node_wf(*node),
        ensures
            r.node == node,
            r.wf(),
    {
        ExprStmt { node }
    }

    /// The raw node this view wraps, for round-tripping.
    pub fn node(&self) -> (r: &'b Node)
        ensures
            r == self.node,
    {
        self.node
    }

    /// The statement's expression.
    pub fn expr(&self) -> (r: Expr<'b>)
        requires
            self.wf(),
        ensures
            r.wf(),
            r.raw() == self.node.kids()[0],
    {
        let cs = self.node.children();
        proof {
            assert(child_wf(self.node.kids()[0]));
        }
        Expr::cast(&cs[0])
    }
}

/// A typed view over a module declaration.
#[derive(Debug, Clone, Copy)]
pub struct Module<'b> {
    pub node: &'b Node,
}

impl<'b> Module<'b> {
    pub open spec fn wf(self) -> bool {
        self.node.kind.0 == NodeType::Module && self.node.children is Some && node_wf(*self.node)
    }

    /// Wraps a raw node as this concrete construct; a mismatched kind
    /// is a programming defect, not a parse error.
    pub fn cast(node: &'b Node) -> (r: Module<'b>)
        requires
            node.kind.0 == NodeType::Module,
            node.children is Some,
            node_wf(*node),
        ensures
            r.node == node,
            r.wf(),
    {
        Module { node }
    }

    /// The raw node this view wraps, for round-tripping.
    pub fn node(&self) -> (r: &'b Node)
        ensures
            r == self.node,
    {
        self.node
    }

    /// The module's name.
    pub fn name(&self) -> (r: Ident<'b>)
        requires
            self.wf(),
        ensures
            r.wf(),
            self.node.kids()[0] == NodeChild::Token(*r.token),
    {
        let cs = self.node.children();
        match &cs[0] {
            NodeChild::Token(t) => Ident::cast(t),
            NodeChild::Node(_) => unreached(),
        }
    }

    /// The declarations inside the module.
    pub fn decls(&self) -> (r: TopDeclList<'b>)
        requires
            self.wf(),
        ensures
            r.wf(),
            self.node.kids()[1] == NodeChild::Node(*r.node),
    {
        let cs = self.node.children();
        proof {
            assert(child_wf(self.node.kids()[1]));
        }
        match &cs[1] {
            NodeChild::Node(n) => TopDeclList::cast(n),
            NodeChild::Token(_) => unreached(),
        }
    }
}

/// A typed view over an enum declaration.
#[derive(Debug, Clone, Copy)]
pub struct EnumDecl<'b> {
    pub node: &'b Node,
}

impl<'b> EnumDecl<'b> {
    pub open spec fn wf(self) -> bool {
        self.node.kind.0 == NodeType::EnumDecl && self.node.children is Some && node_wf(*self.node)
    }

    /// Wraps a raw node as this concrete construct; a mismatched kind
    /// is a programming defect, not a parse error.
    pub fn cast(node: &'b Node) -> (r: EnumDecl<'b>)
        requires
            node.kind.0 == NodeType::EnumDecl,
            node.children is Some,
            node_wf(*node),
        ensures
            r.node == node,
            r.wf(),
    {
        EnumDecl { node }
    }

    /// The raw node this view wraps, for round-tripping.
    pub fn node(&self) -> (r: &'b Node)
        ensures
            r == self.node,
    {
        self.node
    }

    /// The enum's name.
    pub fn name(&self) -> (r: Ident<'b>)
        requires
            self.wf(),
        ensures
            r.wf(),
            self.node.kids()[0] == NodeChild::Token(*r.token),
    {
        let cs = self.node.children();
        match &cs[0] {
            NodeChild::Token(t) => Ident::cast(t),
            NodeChild::Node(_) => unreached(),
        }
    }

    /// The variant list.
    pub fn variants(&self) -> (r: VariantList<'b>)
        requires
            self.wf(),
        ensures
            r.wf(),
            self.node.kids()[1] == NodeChild::Node(*r.node),
    {
        let cs = self.node.children();
        proof {
            assert(child_wf(self.node.kids()[1]));
        }
        match &cs[1] {
            NodeChild::Node(n) => VariantList::cast(n),
            NodeChild::Token(_) => unreached(),
        }
    }
}

/// A typed view over one variant of an enum declaration.
#[derive(Debug, Clone, Copy)]
pub struct Variant<'b> {
    pub node: &'b Node,
}

impl<'b> Variant<'b> {
    pub open spec fn wf(self) -> bool {
        self.node.kind.0 == NodeType::Variant && self.node.children is Some && node_wf(*self.node)
    }

    /// Wraps a raw node as this concrete construct; a mismatched kind
    /// is a programming defect, not a parse error.
    pub fn cast(node: &'b Node) -> (r: Variant<'b>)
        requires
            node.kind.0 == NodeType::Variant,
            node.children is Some,
            node_wf(*node),
        ensures
            r.node == node,
            r.wf(),
    {
        Variant { node }
    }

    /// The raw node this view wraps, for round-tripping.
    pub fn node(&self) -> (r: &'b Node)
        ensures
            r == self.node,
    {
        self.node
    }

    /// The variant's name.
    pub fn tag(&self) -> (r: Ident<'b>)
        requires
            self.wf(),
        ensures
            r.wf(),
            self.node.kids()[0] == NodeChild::Token(*r.token),
    {
        let cs = self.node.children();
        match &cs[0] {
            NodeChild::Token(t) => Ident::cast(t),
            NodeChild::Node(_) => unreached(),
        }
    }

    /// The payload type name, with the empty token for none.
    pub fn variant_type(&self) -> (r: Ident<'b>)
        requires
            self.wf(),
        ensures
            r.wf(),
            self.node.kids()[1] == NodeChild::Token(*r.token),
    {
        let cs = self.node.children();
        match &cs[1] {
            NodeChild::Token(t) => Ident::cast(t),
            NodeChild::Node(_) => unreached(),
        }
    }
}

/// A typed view over a struct declaration.
#[derive(Debug, Clone, Copy)]
pub struct StructDecl<'b> {
    pub node: &'b Node,
}

impl<'b> StructDecl<'b> {
    pub open spec fn wf(self) -> bool {
        self.node.kind.0 == NodeType::StructDecl && self.node.children is Some && node_wf(*self.node)
    }

    /// Wraps a raw node as this concrete construct; a mismatched kind
    /// is a programming defect, not a parse error.
    pub fn cast(node: &'b Node) -> (r: StructDecl<'b>)
        requires
            node.kind.0 == NodeType::StructDecl,
            node.children is Some,
            node_wf(*node),
        ensures
            r.node == node,
            r.wf(),
    {
        StructDecl { node }
    }

    /// The raw node this view wraps, for round-tripping.
    pub fn node(&self) -> (r: &'b Node)
        ensures
            r == self.node,
    {
        self.node
    }

    /// The struct's name.
    pub fn name(&self) -> (r: Ident<'b>)
        requires
            self.wf(),
        ensures
            r.wf(),
            self.node.kids()[0] == NodeChild::Token(*r.token),
    {
        let cs = self.node.children();
        match &cs[0] {
            NodeChild::Token(t) => Ident::cast(t),
            NodeChild::Node(_) => unreached(),
        }
    }

    /// The field list.
    pub fn fields(&self) -> (r: FieldList<'b>)
        requires
            self.wf(),
        ensures
            r.wf(),
            self.node.kids()[1] == NodeChild::Node(*r.node),
    {
        let cs = self.node.children();
        proof {
            assert(child_wf(self.node.kids()[1]));
        }
        match &cs[1] {
            NodeChild::Node(n) => FieldList::cast(n),
            NodeChild::Token(_) => unreached(),
        }
    }
}

/// A typed view over one field of a struct declaration.
#[derive(Debug, Clone, Copy)]
pub struct Field<'b> {
    pub node: &'b Node,
}

impl<'b> Field<'b> {
    pub open spec fn wf(self) -> bool {
        self.node.kind.0 == NodeType::Field && self.node.children is Some && node_wf(*self.node)
    }

    /// Wraps a raw node as this concrete construct; a mismatched kind
    /// is a programming defect, not a parse error.
    pub fn cast(node: &'b Node) -> (r: Field<'b>)
        requires
            node.kind.0 == NodeType::Field,
            node.children is Some,
            node_wf(*node),
        ensures
            r.node == node,
            r.wf(),
    {
        Field { node }
    }

    /// The raw node this view wraps, for round-tripping.
    pub fn node(&self) -> (r: &'b Node)
        ensures
            r == self.node,
    {
        self.node
    }

    /// The field's name.
    pub fn name(&self) -> (r: Ident<'b>)
        requires
            self.wf(),
        ensures
            r.wf(),
            self.node.kids()[0] == NodeChild::Token(*r.token),
    {
        let cs = self.node.children();
        match &cs[0] {
            NodeChild::Token(t) => Ident::cast(t),
            NodeChild::Node(_) => unreached(),
        }
    }

    /// The field's type.
    pub fn field_type(&self) -> (r: TypeExpr<'b>)
        requires
            self.wf(),
        ensures
            r.wf(),
            r.raw() == self.node.kids()[1],
    {
        let cs = self.node.children();
        proof {
            assert(child_wf(self.node.kids()[1]));
        }
        TypeExpr::cast(&cs[1])
    }
}

/// A typed view over a type alias declaration.
#[derive(Debug, Clone, Copy)]
pub struct TypeAlias<'b> {
    pub node: &'b Node,
}

impl<'b> TypeAlias<'b> {
    pub open spec fn wf(self) -> bool {
        self.node.kind.0 == NodeType::TypeAlias && self.node.children is Some && node_wf(*self.node)
    }

    /// Wraps a raw node as this concrete construct; a mismatched kind
    /// is a programming defect, not a parse error.
    pub fn cast(node: &'b Node) -> (r: TypeAlias<'b>)
        requires
            node.kind.0 == NodeType::TypeAlias,
            node.children is Some,
            node_wf(*node),
        ensures
            r.node == node,
            r.wf(),
    {
        TypeAlias { node }
    }

    /// The raw node this view wraps, for round-tripping.
    pub fn node(&self) -> (r: &'b Node)
        ensures
            r == self.node,
    {
        self.node
    }

    /// The alias's name.
    pub fn name(&self) -> (r: Ident<'b>)
        requires
            self.wf(),
        ensures
            r.wf(),
            self.node.kids()[0] == NodeChild::Token(*r.token),
    {
        let cs = self.node.children();
        match &cs[0] {
            NodeChild::Token(t) => Ident::cast(t),
            NodeChild::Node(_) => unreached(),
        }
    }

    /// The aliased type.
    pub fn type_expr(&self) -> (r: TypeExpr<'b>)
        requires
            self.wf(),
        ensures
            r.wf(),
            r.raw() == self.node.kids()[1],
    {
        let cs = self.node.children();
        proof {
            assert(child_wf(self.node.kids()[1]));
        }
        TypeExpr::cast(&cs[1])
    }
}

/// A typed view over a constant declaration.
#[derive(Debug, Clone, Copy)]
pub struct ConstDecl<'b> {
    pub node: &'b Node,
}

impl<'b> ConstDecl<'b> {
    pub open spec fn wf(self) -> bool {
        self.node.kind.0 == NodeType::ConstDecl && self.node.children is Some && node_wf(*self.node)
    }

    /// Wraps a raw node as this concrete construct; a mismatched kind
    /// is a programming defect, not a parse error.
    pub fn cast(node: &'b Node) -> (r: ConstDecl<'b>)
        requires
            node.kind.0 == NodeType::ConstDecl,
            node.children is Some,
            node_wf(*node),
        ensures
            r.node == node,
            r.wf(),
    {
        ConstDecl { node }
    }

    /// The raw node this view wraps, for round-tripping.
    pub fn node(&self) -> (r: &'b Node)
        ensures
            r == self.node,
    {
        self.node
    }

    /// The constant's name.
    pub fn name(&self) -> (r: Ident<'b>)
        requires
            self.wf(),
        ensures
            r.wf(),
            self.node.kids()[0] == NodeChild::Token(*r.token),
    {
        let cs = self.node.children();
        match &cs[0] {
            NodeChild::Token(t) => Ident::cast(t),
            NodeChild::Node(_) => unreached(),
        }
    }

    /// The constant's type.
    pub fn const_type(&self) -> (r: TypeExpr<'b>)
        requires
            self.wf(),
        ensures
            r.wf(),
            r.raw() == self.node.kids()[1],
    {
        let cs = self.node.children();
        proof {
            assert(child_wf(self.node.kids()[1]));
        }
        TypeExpr::cast(&cs[1])
    }

    /// The constant's value.
    pub fn value(&self) -> (r: Expr<'b>)
        requires
            self.wf(),
        ensures
            r.wf(),
            r.raw() == self.node.kids()[2],
    {
        let cs = self.node.children();
        proof {
            assert(child_wf(self.node.kids()[2]));
        }
        Expr::cast(&cs[2])
    }
}

/// A typed view over an array type.
#[derive(Debug, Clone, Copy)]
pub struct ArrayType<'b> {
    pub node: &'b Node,
}

impl<'b> ArrayType<'b> {
    pub open spec fn wf(self) -> bool {
        self.node.kind.0 == NodeType::ArrayType && self.node.children is Some && node_wf(*self.node)
    }

    /// Wraps a raw node as this concrete construct; a mismatched kind
    /// is a programming defect, not a parse error.
    pub fn cast(node: &'b Node) -> (r: ArrayType<'b>)
        requires
            node.kind.0 == NodeType::ArrayType,
            node.children is Some,
            node_wf(*node),
        ensures
            r.node == node,
            r.wf(),
    {
        ArrayType { node }
    }

    /// The raw node this view wraps, for round-tripping.
    pub fn node(&self) -> (r: &'b Node)
        ensures
            r == self.node,
    {
        self.node
    }

    /// The element type.
    pub fn element_type(&self) -> (r: TypeExpr<'b>)
        requires
            self.wf(),
        ensures
            r.wf(),
            r.raw() == self.node.kids()[0],
    {
        let cs = self.node.children();
        proof {
            assert(child_wf(self.node.kids()[0]));
        }
        TypeExpr::cast(&cs[0])
    }

    /// The length, with the empty token where it was absent.
    pub fn len(&self) -> (r: Int<'b>)
        requires
            self.wf(),
        ensures
            r.wf(),
            self.node.kids()[1] == NodeChild::Token(*r.token),
    {
        let cs = self.node.children();
        match &cs[1] {
            NodeChild::Token(t) => Int::cast(t),
            NodeChild::Node(_) => unreached(),
        }
    }
}

/// A typed view over a parenthesized type.
#[derive(Debug, Clone, Copy)]
pub struct GroupType<'b> {
    pub node: &'b Node,
}

impl<'b> GroupType<'b> {
    pub open spec fn wf(self) -> bool {
        self.node.kind.0 == NodeType::GroupType && self.node.children is Some && node_wf(*self.node)
    }

    /// Wraps a raw node as this concrete construct; a mismatched kind
    /// is a programming defect, not a parse error.
    pub fn cast(node: &'b Node) -> (r: GroupType<'b>)
        requires
            node.kind.0 == NodeType::GroupType,
            node.children is Some,
            node_wf(*node),
        ensures
            r.node == node,
            r.wf(),
    {
        GroupType { node }
    }

    /// The raw node this view wraps, for round-tripping.
    pub fn node(&self) -> (r: &'b Node)
        ensures
            r == self.node,
    {
        self.node
    }

    /// The type inside the parentheses.
    pub fn inner_type(&self) -> (r: TypeExpr<'b>)
        requires
            self.wf(),
        ensures
            r.wf(),
            r.raw() == self.node.kids()[0],
    {
        let cs = self.node.children();
        proof {
            assert(child_wf(self.node.kids()[0]));
        }
        TypeExpr::cast(&cs[0])
    }
}

/// A typed view over a function type.
#[derive(Debug, Clone, Copy)]
pub struct FnType<'b> {
    pub node: &'b Node,
}

impl<'b> FnType<'b> {
    pub open spec fn wf(self) -> bool {
        self.node.kind.0 == NodeType::FnType && self.node.children is Some && node_wf(*self.node)
    }

    /// Wraps a raw node as this concrete construct; a mismatched kind
    /// is a programming defect, not a parse error.
    pub fn cast(node: &'b Node) -> (r: FnType<'b>)
        requires
            node.kind.0 == NodeType::FnType,
            node.children is Some,
            node_wf(*node),
        ensures
            r.node == node,
            r.wf(),
    {
        FnType { node }
    }

    /// The raw node this view wraps, for round-tripping.
    pub fn node(&self) -> (r: &'b Node)
        ensures
            r == self.node,
    {
        self.node
    }

    /// The parameter types.
    pub fn params(&self) -> (r: FnTypeParamList<'b>)
        requires
            self.wf(),
        ensures
            r.wf(),
            self.node.kids()[0] == NodeChild::Node(*r.node),
    {
        let cs = self.node.children();
        proof {
            assert(child_wf(self.node.kids()[0]));
        }
        match &cs[0] {
            NodeChild::Node(n) => FnTypeParamList::cast(n),
            NodeChild::Token(_) => unreached(),
        }
    }
}

/// A typed view over one parameter of a function definition.
#[derive(Debug, Clone, Copy)]
pub struct Param<'b> {
    pub node: &'b Node,
}

impl<'b> Param<'b> {
    pub open spec fn wf(self) -> bool {
        self.node.kind.0 == NodeType::Param && self.node.children is Some && node_wf(*self.node)
    }

    /// Wraps a raw node as this concrete construct; a mismatched kind
    /// is a programming defect, not a parse error.
    pub fn cast(node: &'b Node) -> (r: Param<'b>)
        requires
            node.kind.0 == NodeType::Param,
            node.children is Some,
            node_wf(*node),
        ensures
            r.node == node,
            r.wf(),
    {
        Param { node }
    }

    /// The raw node this view wraps, for round-tripping.
    pub fn node(&self) -> (r: &'b Node)
        ensures
            r == self.node,
    {
        self.node
    }

    /// The parameter's name.
    pub fn ident(&self) -> (r: Ident<'b>)
        requires
            self.wf(),
        ensures
            r.wf(),
            self.node.kids()[0] == NodeChild::Token(*r.token),
    {
        let cs = self.node.children();
        match &cs[0] {
            NodeChild::Token(t) => Ident::cast(t),
            NodeChild::Node(_) => unreached(),
        }
    }

    /// The parameter's type.
    pub fn param_type(&self) -> (r: TypeExpr<'b>)
        requires
            self.wf(),
        ensures
            r.wf(),
            r.raw() == self.node.kids()[1],
    {
        let cs = self.node.children();
        proof {
            assert(child_wf(self.node.kids()[1]));
        }
        TypeExpr::cast(&cs[1])
    }
}

/// A typed view over a statement list.
#[derive(Debug, Clone, Copy)]
pub struct StmtList<'b> {
    pub node: &'b Node,
}

impl<'b> StmtList<'b> {
    pub open spec fn wf(self) -> bool {
        self.node.kind.0 == NodeType::StmtList && node_wf(*self.node)
    }

    /// Wraps a raw node as this concrete construct; a mismatched kind
    /// is a programming defect, not a parse error.
    pub fn cast(node: &'b Node) -> (r: StmtList<'b>)
        requires
            node.kind.0 == NodeType::StmtList,
            node_wf(*node),
        ensures
            r.node == node,
            r.wf(),
    {
        StmtList { node }
    }

    /// The raw node this view wraps, for round-tripping.
    pub fn node(&self) -> (r: &'b Node)
        ensures
            r == self.node,
    {
        self.node
    }

    /// How many statements the list holds.
    pub fn count(&self) -> (r: usize)
        requires
            self.wf(),
        ensures
            r == self.node.kids().len(),
    {
        self.node.child_count()
    }

    /// The statement at the given position.
    pub fn item(&self, i: usize) -> (r: Stmt<'b>)
        requires
            self.wf(),
            i < self.node.kids().len(),
        ensures
            r.wf(),
            r.raw() == self.node.kids()[i as int],
    {
        let cs = self.node.children();
        proof {
            assert(child_wf(self.node.kids()[i as int]));
            assert(elem_ok(self.node.kind.0, self.node.kids()[i as int]));
        }
        Stmt::cast(&cs[i])
    }
}

/// A typed view over a top-level declaration list.
#[derive(Debug, Clone, Copy)]
pub struct TopDeclList<'b> {
    pub node: &'b Node,
}

impl<'b> TopDeclList<'b> {
    pub open spec fn wf(self) -> bool {
        self.node.kind.0 == NodeType::TopDeclList && node_wf(*self.node)
    }

    /// Wraps a raw node as this concrete construct; a mismatched kind
    /// is a programming defect, not a parse error.
    pub fn cast(node: &'b Node) -> (r: TopDeclList<'b>)
        requires
            node.kind.0 == NodeType::TopDeclList,
            node_wf(*node),
        ensures
            r.node == node,
            r.wf(),
    {
        TopDeclList { node }
    }

    /// The raw node this view wraps, for round-tripping.
    pub fn node(&self) -> (r: &'b Node)
        ensures
            r == self.node,
    {
        self.node
    }

    /// How many declarations the list holds.
    pub fn count(&self) -> (r: usize)
        requires
            self.wf(),
        ensures
            r == self.node.kids().len(),
    {
        self.node.child_count()
    }

    /// The declaration at the given position.
    pub fn item(&self, i: usize) -> (r: TopLevelDecl<'b>)
        requires
            self.wf(),
            i < self.node.kids().len(),
        ensures
            r.wf(),
            self.node.kids()[i as int] == NodeChild::Node(r.node_spec()),
    {
        let cs = self.node.children();
        proof {
            assert(child_wf(self.node.kids()[i as int]));
            assert(elem_ok(self.node.kind.0, self.node.kids()[i as int]));
        }
        match &cs[i] {
            NodeChild::Node(n) => TopLevelDecl::cast(n),
            NodeChild::Token(_) => unreached(),
        }
    }
}

/// A typed view over an import declaration (its dotted path).
#[derive(Debug, Clone, Copy)]
pub struct ImportDecl<'b> {
    pub node: &'b Node,
}

impl<'b> ImportDecl<'b> {
    pub open spec fn wf(self) -> bool {
        self.node.kind.0 == NodeType::ImportDecl && node_wf(*self.node)
    }

    /// Wraps a raw node as this concrete construct; a mismatched kind
    /// is a programming defect, not a parse error.
    pub fn cast(node: &'b Node) -> (r: ImportDecl<'b>)
        requires
            node.kind.0 == NodeType::ImportDecl,
            node_wf(*node),
        ensures
            r.node == node,
            r.wf(),
    {
        ImportDecl { node }
    }

    /// The raw node this view wraps, for round-tripping.
    pub fn node(&self) -> (r: &'b Node)
        ensures
            r == self.node,
    {
        self.node
    }

    /// How many path segments the list holds.
    pub fn count(&self) -> (r: usize)
        requires
            self.wf(),
        ensures
            r == self.node.kids().len(),
    {
        self.node.child_count()
    }

    /// The path segment at the given position.
    pub fn item(&self, i: usize) -> (r: Ident<'b>)
        requires
            self.wf(),
            i < self.node.kids().len(),
        ensures
            r.wf(),
            self.node.kids()[i as int] == NodeChild::Token(*r.token),
    {
        let cs = self.node.children();
        proof {
            assert(elem_ok(self.node.kind.0, self.node.kids()[i as int]));
        }
        match &cs[i] {
            NodeChild::Token(t) => Ident::cast(t),
            NodeChild::Node(_) => unreached(),
        }
    }
}

/// A typed view over an enum's variant list.
#[derive(Debug, Clone, Copy)]
pub struct VariantList<'b> {
    pub node: &'b Node,
}

impl<'b> VariantList<'b> {
    pub open spec fn wf(self) -> bool {
        self.node.kind.0 == NodeType::VariantList && node_wf(*self.node)
    }

    /// Wraps a raw node as this concrete construct; a mismatched kind
    /// is a programming defect, not a parse error.
    pub fn cast(node: &'b Node) -> (r: VariantList<'b>)
        requires
            node.kind.0 == NodeType::VariantList,
            node_wf(*node),
        ensures
            r.node == node,
            r.wf(),
    {
        VariantList { node }
    }

    /// The raw node this view wraps, for round-tripping.
    pub fn node(&self) -> (r: &'b Node)
        ensures
            r == self.node,
    {
        self.node
    }

    /// How many variants the list holds.
    pub fn count(&self) -> (r: usize)
        requires
            self.wf(),
        ensures
            r == self.node.kids().len(),
    {
        self.node.child_count()
    }

    /// The variant at the given position.
    pub fn item(&self, i: usize) -> (r: Variant<'b>)
        requires
            self.wf(),
            i < self.node.kids().len(),
        ensures
            r.wf(),
            self.node.kids()[i as int] == NodeChild::Node(*r.node),
    {
        let cs = self.node.children();
        proof {
            assert(child_wf(self.node.kids()[i as int]));
            assert(elem_ok(self.node.kind.0, self.node.kids()[i as int]));
        }
        match &cs[i] {
            NodeChild::Node(n) => Variant::cast(n),
            NodeChild::Token(_) => unreached(),
        }
    }
}

/// A typed view over a struct's field list.
#[derive(Debug, Clone, Copy)]
pub struct FieldList<'b> {
    pub node: &'b Node,
}

impl<'b> FieldList<'b> {
    pub open spec fn wf(self) -> bool {
        self.node.kind.0 == NodeType::FieldList && node_wf(*self.node)
    }

    /// Wraps a raw node as this concrete construct; a mismatched kind
    /// is a programming defect, not a parse error.
    pub fn cast(node: &'b Node) -> (r: FieldList<'b>)
        requires
            node.kind.0 == NodeType::FieldList,
            node_wf(*node),
        ensures
            r.node == node,
            r.wf(),
    {
        FieldList { node }
    }

    /// The raw node this view wraps, for round-tripping.
    pub fn node(&self) -> (r: &'b Node)
        ensures
            r == self.node,
    {
        self.node
    }

    /// How many fields the list holds.
    pub fn count(&self) -> (r: usize)
        requires
            self.wf(),
        ensures
            r == self.node.kids().len(),
    {
        self.node.child_count()
    }

    /// The field at the given position.
    pub fn item(&self, i: usize) -> (r: Field<'b>)
        requires
            self.wf(),
            i < self.node.kids().len(),
        ensures
            r.wf(),
            self.node.kids()[i as int] == NodeChild::Node(*r.node),
    {
        let cs = self.node.children();
        proof {
            assert(child_wf(self.node.kids()[i as int]));
            assert(elem_ok(self.node.kind.0, self.node.kids()[i as int]));
        }
        match &cs[i] {
            NodeChild::Node(n) => Field::cast(n),
            NodeChild::Token(_) => unreached(),
        }
    }
}

/// A typed view over a struct literal's initializer list.
#[derive(Debug, Clone, Copy)]
pub struct FieldInitList<'b> {
    pub node: &'b Node,
}

impl<'b> FieldInitList<'b> {
    pub open spec fn wf(self) -> bool {
        self.node.kind.0 == NodeType::FieldInitList && node_wf(*self.node)
    }

    /// Wraps a raw node as this concrete construct; a mismatched kind
    /// is a programming defect, not a parse error.
    pub fn cast(node: &'b Node) -> (r: FieldInitList<'b>)
        requires
            node.kind.0 == NodeType::FieldInitList,
            node_wf(*node),
        ensures
            r.node == node,
            r.wf(),
    {
        FieldInitList { node }
    }

    /// The raw node this view wraps, for round-tripping.
    pub fn node(&self) -> (r: &'b Node)
        ensures
            r == self.node,
    {
        self.node
    }

    /// How many field initializers the list holds.
    pub fn count(&self) -> (r: usize)
        requires
            self.wf(),
        ensures
            r == self.node.kids().len(),
    {
        self.node.child_count()
    }

    /// The field initializer at the given position.
    pub fn item(&self, i: usize) -> (r: FieldInit<'b>)
        requires
            self.wf(),
            i < self.node.kids().len(),
        ensures
            r.wf(),
            self.node.kids()[i as int] == NodeChild::Node(*r.node),
    {
        let cs = self.node.children();
        proof {
            assert(child_wf(self.node.kids()[i as int]));
            assert(elem_ok(self.node.kind.0, self.node.kids()[i as int]));
        }
        match &cs[i] {
            NodeChild::Node(n) => FieldInit::cast(n),
            NodeChild::Token(_) => unreached(),
        }
    }
}

/// A typed view over a parameter list.
#[derive(Debug, Clone, Copy)]
pub struct ParamList<'b> {
    pub node: &'b Node,
}

impl<'b> ParamList<'b> {
    pub open spec fn wf(self) -> bool {
        self.node.kind.0 == NodeType::ParamList && node_wf(*self.node)
    }

    /// Wraps a raw node as this concrete construct; a mismatched kind
    /// is a programming defect, not a parse error.
    pub fn cast(node: &'b Node) -> (r: ParamList<'b>)
        requires
            node.kind.0 == NodeType::ParamList,
            node_wf(*node),
        ensures
            r.node == node,
            r.wf(),
    {
        ParamList { node }
    }

    /// The raw node this view wraps, for round-tripping.
    pub fn node(&self) -> (r: &'b Node)
        ensures
            r == self.node,
    {
        self.node
    }

    /// How many parameters the list holds.
    pub fn count(&self) -> (r: usize)
        requires
            self.wf(),
        ensures
            r == self.node.kids().len(),
    {
        self.node.child_count()
    }

    /// The parameter at the given position.
    pub fn item(&self, i: usize) -> (r: Param<'b>)
        requires
            self.wf(),
            i < self.node.kids().len(),
        ensures
            r.wf(),
            self.node.kids()[i as int] == NodeChild::Node(*r.node),
    {
        let cs = self.node.children();
        proof {
            assert(child_wf(self.node.kids()[i as int]));
            assert(elem_ok(self.node.kind.0, self.node.kids()[i as int]));
        }
        match &cs[i] {
            NodeChild::Node(n) => Param::cast(n),
            NodeChild::Token(_) => unreached(),
        }
    }
}

/// A typed view over an argument list.
#[derive(Debug, Clone, Copy)]
pub struct ArgList<'b> {
    pub node: &'b Node,
}

impl<'b> ArgList<'b> {
    pub open spec fn wf(self) -> bool {
        self.node.kind.0 == NodeType::ArgList && node_wf(*self.node)
    }

    /// Wraps a raw node as this concrete construct; a mismatched kind
    /// is a programming defect, not a parse error.
    pub fn cast(node: &'b Node) -> (r: ArgList<'b>)
        requires
            node.kind.0 == NodeType::ArgList,
            node_wf(*node),
        ensures
            r.node == node,
            r.wf(),
    {
        ArgList { node }
    }

    /// The raw node this view wraps, for round-tripping.
    pub fn node(&self) -> (r: &'b Node)
        ensures
            r == self.node,
    {
        self.node
    }

    /// How many arguments the list holds.
    pub fn count(&self) -> (r: usize)
        requires
            self.wf(),
        ensures
            r == self.node.kids().len(),
    {
        self.node.child_count()
    }

    /// The argument at the given position.
    pub fn item(&self, i: usize) -> (r: Expr<'b>)
        requires
            self.wf(),
            i < self.node.kids().len(),
        ensures
            r.wf(),
            r.raw() == self.node.kids()[i as int],
    {
        let cs = self.node.children();
        proof {
            assert(child_wf(self.node.kids()[i as int]));
            assert(elem_ok(self.node.kind.0, self.node.kids()[i as int]));
        }
        Expr::cast(&cs[i])
    }
}

/// A typed view over an array expression.
#[derive(Debug, Clone, Copy)]
pub struct ArrayExpr<'b> {
    pub node: &'b Node,
}

impl<'b> ArrayExpr<'b> {
    pub open spec fn wf(self) -> bool {
        self.node.kind.0 == NodeType::ArrayExpr && node_wf(*self.node)
    }

    /// Wraps a raw node as this concrete construct; a mismatched kind
    /// is a programming defect, not a parse error.
    pub fn cast(node: &'b Node) -> (r: ArrayExpr<'b>)
        requires
            node.kind.0 == NodeType::ArrayExpr,
            node_wf(*node),
        ensures
            r.node == node,
            r.wf(),
    {
        ArrayExpr { node }
    }

    /// The raw node this view wraps, for round-tripping.
    pub fn node(&self) -> (r: &'b Node)
        ensures
            r == self.node,
    {
        self.node
    }

    /// How many elements the list holds.
    pub fn count(&self) -> (r: usize)
        requires
            self.wf(),
        ensures
            r == self.node.kids().len(),
    {
        self.node.child_count()
    }

    /// The element at the given position.
    pub fn item(&self, i: usize) -> (r: Expr<'b>)
        requires
            self.wf(),
            i < self.node.kids().len(),
        ensures
            r.wf(),
            r.raw() == self.node.kids()[i as int],
    {
        let cs = self.node.children();
        proof {
            assert(child_wf(self.node.kids()[i as int]));
            assert(elem_ok(self.node.kind.0, self.node.kids()[i as int]));
        }
        Expr::cast(&cs[i])
    }
}

/// A typed view over a tuple expression.
#[derive(Debug, Clone, Copy)]
pub struct TupleExpr<'b> {
    pub node: &'b Node,
}

impl<'b> TupleExpr<'b> {
    pub open spec fn wf(self) -> bool {
        self.node.kind.0 == NodeType::TupleExpr && node_wf(*self.node)
    }

    /// Wraps a raw node as this concrete construct; a mismatched kind
    /// is a programming defect, not a parse error.
    pub fn cast(node: &'b Node) -> (r: TupleExpr<'b>)
        requires
            node.kind.0 == NodeType::TupleExpr,
            node_wf(*node),
        ensures
            r.node == node,
            r.wf(),
    {
        TupleExpr { node }
    }

    /// The raw node this view wraps, for round-tripping.
    pub fn node(&self) -> (r: &'b Node)
        ensures
            r == self.node,
    {
        self.node
    }

    /// How many elements the list holds.
    pub fn count(&self) -> (r: usize)
        requires
            self.wf(),
        ensures
            r == self.node.kids().len(),
    {
        self.node.child_count()
    }

    /// The element at the given position.
    pub fn item(&self, i: usize) -> (r: Expr<'b>)
        requires
            self.wf(),
            i < self.node.kids().len(),
        ensures
            r.wf(),
            r.raw() == self.node.kids()[i as int],
    {
        let cs = self.node.children();
        proof {
            assert(child_wf(self.node.kids()[i as int]));
            assert(elem_ok(self.node.kind.0, self.node.kids()[i as int]));
        }
        Expr::cast(&cs[i])
    }
}

/// A typed view over a tuple type.
#[derive(Debug, Clone, Copy)]
pub struct TupleType<'b> {
    pub node: &'b Node,
}

impl<'b> TupleType<'b> {
    pub open spec fn wf(self) -> bool {
        self.node.kind.0 == NodeType::TupleType && node_wf(*self.node)
    }

    /// Wraps a raw node as this concrete construct; a mismatched kind
    /// is a programming defect, not a parse error.
    pub fn cast(node: &'b Node) -> (r: TupleType<'b>)
        requires
            node.kind.0 == NodeType::TupleType,
            node_wf(*node),
        ensures
            r.node == node,
            r.wf(),
    {
        TupleType { node }
    }

    /// The raw node this view wraps, for round-tripping.
    pub fn node(&self) -> (r: &'b Node)
        ensures
            r == self.node,
    {
        self.node
    }

    /// How many element types the list holds.
    pub fn count(&self) -> (r: usize)
        requires
            self.wf(),
        ensures
            r == self.node.kids().len(),
    {
        self.node.child_count()
    }

    /// The element type at the given position.
    pub fn item(&self, i: usize) -> (r: TypeExpr<'b>)
        requires
            self.wf(),
            i < self.node.kids().len(),
        ensures
            r.wf(),
            r.raw() == self.node.kids()[i as int],
    {
        let cs = self.node.children();
        proof {
            assert(child_wf(self.node.kids()[i as int]));
            assert(elem_ok(self.node.kind.0, self.node.kids()[i as int]));
        }
        TypeExpr::cast(&cs[i])
    }
}

/// A typed view over a function type's parameter list.
#[derive(Debug, Clone, Copy)]
pub struct FnTypeParamList<'b> {
    pub node: &'b Node,
}

impl<'b> FnTypeParamList<'b> {
    pub open spec fn wf(self) -> bool {
        self.node.kind.0 == NodeType::FnTypeParamList && node_wf(*self.node)
    }

    /// Wraps a raw node as this concrete construct; a mismatched kind
    /// is a programming defect, not a parse error.
    pub fn cast(node: &'b Node) -> (r: FnTypeParamList<'b>)
        requires
            node.kind.0 == NodeType::FnTypeParamList,
            node_wf(*node),
        ensures
            r.node == node,
            r.wf(),
    {
        FnTypeParamList { node }
    }

    /// The raw node this view wraps, for round-tripping.
    pub fn node(&self) -> (r: &'b Node)
        ensures
            r == self.node,
    {
        self.node
    }

    /// How many parameter types the list holds.
    pub fn count(&self) -> (r: usize)
        requires
            self.wf(),
        ensures
            r == self.node.kids().len(),
    {
        self.node.child_count()
    }

    /// The parameter type at the given position.
    pub fn item(&self, i: usize) -> (r: TypeExpr<'b>)
        requires
            self.wf(),
            i < self.node.kids().len(),
        ensures
            r.wf(),
            r.raw() == self.node.kids()[i as int],
    {
        let cs = self.node.children();
        proof {
            assert(child_wf(self.node.kids()[i as int]));
            assert(elem_ok(self.node.kind.0, self.node.kids()[i as int]));
        }
        TypeExpr::cast(&cs[i])
    }
}


/// The sum-typed view over anything in expression position: a literal
/// token or any expression-kind node. This dispatch is the single
/// place the expression kinds are pattern-matched, and it is
/// exhaustive: an unmatched kind is a defect, not a recoverable
/// condition.
#[derive(Debug, Clone, Copy)]
pub enum Expr<'b> {
    Ident(Ident<'b>),
    Str(Str<'b>),
    Int(Int<'b>),
    Bool(Bool<'b>),
    Infix(Infix<'b>),
    Prefix(Prefix<'b>),
    ContinueExpr(ContinueExpr<'b>),
    BreakExpr(BreakExpr<'b>),
    ReturnExpr(ReturnExpr<'b>),
    Group(Group<'b>),
    ArrayExpr(ArrayExpr<'b>),
    CallExpr(CallExpr<'b>),
    IndexExpr(IndexExpr<'b>),
    FieldAccessExpr(FieldAccessExpr<'b>),
    MethodCall(MethodCall<'b>),
    TupleExpr(TupleExpr<'b>),
    IfExpr(IfExpr<'b>),
    WhileExpr(WhileExpr<'b>),
    BlockExpr(BlockExpr<'b>),
    StructExpr(StructExpr<'b>),
    AssignExpr(AssignExpr<'b>),
}

impl<'b> Expr<'b> {
    /// The raw child this view wraps.
    pub open spec fn raw(self) -> NodeChild {
        match self {
            Expr::Ident(v) => NodeChild::Token(*v.token),
            Expr::Str(v) => NodeChild::Token(*v.token),
            Expr::Int(v) => NodeChild::Token(*v.token),
            Expr::Bool(v) => NodeChild::Token(*v.token),
            Expr::Infix(v) => NodeChild::Node(*v.node),
            Expr::Prefix(v) => NodeChild::Node(*v.node),
            Expr::ContinueExpr(v) => NodeChild::Node(*v.node),
            Expr::BreakExpr(v) => NodeChild::Node(*v.node),
            Expr::ReturnExpr(v) => NodeChild::Node(*v.node),
            Expr::Group(v) => NodeChild::Node(*v.node),
            Expr::ArrayExpr(v) => NodeChild::Node(*v.node),
            Expr::CallExpr(v) => NodeChild::Node(*v.node),
            Expr::IndexExpr(v) => NodeChild::Node(*v.node),
            Expr::FieldAccessExpr(v) => NodeChild::Node(*v.node),
            Expr::MethodCall(v) => NodeChild::Node(*v.node),
            Expr::TupleExpr(v) => NodeChild::Node(*v.node),
            Expr::IfExpr(v) => NodeChild::Node(*v.node),
            Expr::WhileExpr(v) => NodeChild::Node(*v.node),
            Expr::BlockExpr(v) => NodeChild::Node(*v.node),
            Expr::StructExpr(v) => NodeChild::Node(*v.node),
            Expr::AssignExpr(v) => NodeChild::Node(*v.node),
        }
    }

    pub open spec fn wf(self) -> bool {
        match self {
            Expr::Ident(v) => v.wf(),
            Expr::Str(v) => v.wf(),
            Expr::Int(v) => v.wf(),
            Expr::Bool(v) => v.wf(),
            Expr::Infix(v) => v.wf(),
            Expr::Prefix(v) => v.wf(),
            Expr::ContinueExpr(v) => v.wf(),
            Expr::BreakExpr(v) => v.wf(),
            Expr::ReturnExpr(v) => v.wf(),
            Expr::Group(v) => v.wf(),
            Expr::ArrayExpr(v) => v.wf(),
            Expr::CallExpr(v) => v.wf(),
            Expr::IndexExpr(v) => v.wf(),
            Expr::FieldAccessExpr(v) => v.wf(),
            Expr::MethodCall(v) => v.wf(),
            Expr::TupleExpr(v) => v.wf(),
            Expr::IfExpr(v) => v.wf(),
            Expr::WhileExpr(v) => v.wf(),
            Expr::BlockExpr(v) => v.wf(),
            Expr::StructExpr(v) => v.wf(),
            Expr::AssignExpr(v) => v.wf(),
        }
    }

    /// Wraps a raw child in expression position as the concrete
    /// expression view its kind calls for.
    pub fn cast(c: &'b NodeChild) -> (r: Expr<'b>)
        requires
            c_expr(*c),
            child_wf(*c),
        ensures
            r.wf(),
            r.raw() == *c,
    {
        proof {
            assert(child_wf(*c));
        }
        match c {
            NodeChild::Token(t) => {
                match t.tag {
                    Tag::Ident => Expr::Ident(Ident::cast(t)),
                    Tag::Str => Expr::Str(Str::cast(t)),
                    Tag::Number => Expr::Int(Int::cast(t)),
                    Tag::Bool => Expr::Bool(Bool::cast(t)),
                    _ => unreached(),
                }
            },
            NodeChild::Node(n) => {
                match n.kind.0 {
                    NodeType::Infix => Expr::Infix(Infix::cast(n)),
                    NodeType::Prefix => Expr::Prefix(Prefix::cast(n)),
                    NodeType::ContinueExpr => Expr::ContinueExpr(ContinueExpr::cast(n)),
                    NodeType::BreakExpr => Expr::BreakExpr(BreakExpr::cast(n)),
                    NodeType::ReturnExpr => Expr::ReturnExpr(ReturnExpr::cast(n)),
                    NodeType::Group => Expr::Group(Group::cast(n)),
                    NodeType::ArrayExpr => Expr::ArrayExpr(ArrayExpr::cast(n)),
                    NodeType::CallExpr => Expr::CallExpr(CallExpr::cast(n)),
                    NodeType::IndexExpr => Expr::IndexExpr(IndexExpr::cast(n)),
                    NodeType::FieldAccessExpr => Expr::FieldAccessExpr(FieldAccessExpr::cast(n)),
                    NodeType::MethodCall => Expr::MethodCall(MethodCall::cast(n)),
                    NodeType::TupleExpr => Expr::TupleExpr(TupleExpr::cast(n)),
                    NodeType::IfExpr => Expr::IfExpr(IfExpr::cast(n)),
                    NodeType::WhileExpr => Expr::WhileExpr(WhileExpr::cast(n)),
                    NodeType::BlockExpr => Expr::BlockExpr(BlockExpr::cast(n)),
                    NodeType::StructExpr => Expr::StructExpr(StructExpr::cast(n)),
                    NodeType::AssignExpr => Expr::AssignExpr(AssignExpr::cast(n)),
                    _ => unreached(),
                }
            },
        }
    }
}

/// The sum-typed view over anything in type-expression position: a
/// plain named type (an identifier token) or any type-kind node.
#[derive(Debug, Clone, Copy)]
pub enum TypeExpr<'b> {
    TupleType(TupleType<'b>),
    ArrayType(ArrayType<'b>),
    GroupType(GroupType<'b>),
    Ident(Ident<'b>),
    FnType(FnType<'b>),
}

impl<'b> TypeExpr<'b> {
    /// The raw child this view wraps.
    pub open spec fn raw(self) -> NodeChild {
        match self {
            TypeExpr::TupleType(v) => NodeChild::Node(*v.node),
            TypeExpr::ArrayType(v) => NodeChild::Node(*v.node),
            TypeExpr::GroupType(v) => NodeChild::Node(*v.node),
            TypeExpr::FnType(v) => NodeChild::Node(*v.node),
            TypeExpr::Ident(v) => NodeChild::Token(*v.token),
        }
    }

    pub open spec fn wf(self) -> bool {
        match self {
            TypeExpr::TupleType(v) => v.wf(),
            TypeExpr::ArrayType(v) => v.wf(),
            TypeExpr::GroupType(v) => v.wf(),
            TypeExpr::FnType(v) => v.wf(),
            TypeExpr::Ident(v) => v.wf(),
        }
    }

    /// Wraps a raw child in type position as the concrete type view
    /// its kind calls for.
    pub fn cast(c: &'b NodeChild) -> (r: TypeExpr<'b>)
        requires
            c_type(*c),
            child_wf(*c),
        ensures
            r.wf(),
            r.raw() == *c,
    {
        match c {
            NodeChild::Token(t) => TypeExpr::Ident(Ident::cast(t)),
            NodeChild::Node(n) => {
                match n.kind.0 {
                    NodeType::TupleType => TypeExpr::TupleType(TupleType::cast(n)),
                    NodeType::ArrayType => TypeExpr::ArrayType(ArrayType::cast(n)),
                    NodeType::GroupType => TypeExpr::GroupType(GroupType::cast(n)),
                    NodeType::FnType => TypeExpr::FnType(FnType::cast(n)),
                    _ => unreached(),
                }
            },
        }
    }
}

/// The sum-typed view over one statement-list element: a variable
/// declaration, an expression statement, or the empty statement (a
/// lone semicolon token).
#[derive(Debug, Clone, Copy)]
pub enum Stmt<'b> {
    VarDecl(VarDecl<'b>),
    ExprStmt(ExprStmt<'b>),
    Empty(EmptyStmt<'b>),
}

impl<'b> Stmt<'b> {
    /// The raw child this view wraps.
    pub open spec fn raw(self) -> NodeChild {
        match self {
            Stmt::VarDecl(v) => NodeChild::Node(*v.node),
            Stmt::ExprStmt(v) => NodeChild::Node(*v.node),
            Stmt::Empty(v) => NodeChild::Token(*v.token),
        }
    }

    pub open spec fn wf(self) -> bool {
        match self {
            Stmt::VarDecl(v) => v.wf(),
            Stmt::ExprStmt(v) => v.wf(),
            Stmt::Empty(v) => v.wf(),
        }
    }

    /// Wraps a raw statement-list element as the concrete statement
    /// view its kind calls for.
    pub fn cast(c: &'b NodeChild) -> (r: Stmt<'b>)
        requires
            c_stmt(*c),
            child_wf(*c),
        ensures
            r.wf(),
            r.raw() == *c,
    {
        proof {
            assert(child_wf(*c));
        }
        match c {
            NodeChild::Token(t) => Stmt::Empty(EmptyStmt::cast(t)),
            NodeChild::Node(n) => {
                match n.kind.0 {
                    NodeType::VarDecl => Stmt::VarDecl(VarDecl::cast(n)),
                    NodeType::ExprStmt => Stmt::ExprStmt(ExprStmt::cast(n)),
                    _ => unreached(),
                }
            },
        }
    }
}

/// The sum-typed view over one top-level declaration.
#[derive(Debug, Clone, Copy)]
pub enum TopLevelDecl<'b> {
    Mod(Module<'b>),
    Import(ImportDecl<'b>),
    Enum(EnumDecl<'b>),
    Fn(FnDef<'b>),
    Struct(StructDecl<'b>),
    Type(TypeAlias<'b>),
    Const(ConstDecl<'b>),
}

impl<'b> TopLevelDecl<'b> {
    /// The raw node this view wraps.
    pub open spec fn node_spec(self) -> Node {
        match self {
            TopLevelDecl::Mod(v) => *v.node,
            TopLevelDecl::Import(v) => *v.node,
            TopLevelDecl::Enum(v) => *v.node,
            TopLevelDecl::Fn(v) => *v.node,
            TopLevelDecl::Struct(v) => *v.node,
            TopLevelDecl::Type(v) => *v.node,
            TopLevelDecl::Const(v) => *v.node,
        }
    }

    pub open spec fn wf(self) -> bool {
        match self {
            TopLevelDecl::Mod(v) => v.wf(),
            TopLevelDecl::Import(v) => v.wf(),
            TopLevelDecl::Enum(v) => v.wf(),
            TopLevelDecl::Fn(v) => v.wf(),
            TopLevelDecl::Struct(v) => v.wf(),
            TopLevelDecl::Type(v) => v.wf(),
            TopLevelDecl::Const(v) => v.wf(),
        }
    }

    /// Wraps a raw top-level declaration node as the concrete view its
    /// kind calls for.
    pub fn cast(node: &'b Node) -> (r: TopLevelDecl<'b>)
        requires
            is_top_decl_kind(node.kind.0),
            node.children is Some,
            node_wf(*node),
        ensures
            r.wf(),
            r.node_spec() == *node,
    {
        match node.kind.0 {
            NodeType::Module => TopLevelDecl::Mod(Module::cast(node)),
            NodeType::ImportDecl => TopLevelDecl::Import(ImportDecl::cast(node)),
            NodeType::EnumDecl => TopLevelDecl::Enum(EnumDecl::cast(node)),
            NodeType::FnDef => TopLevelDecl::Fn(FnDef::cast(node)),
            NodeType::StructDecl => TopLevelDecl::Struct(StructDecl::cast(node)),
            NodeType::TypeAlias => TopLevelDecl::Type(TypeAlias::cast(node)),
            NodeType::ConstDecl => TopLevelDecl::Const(ConstDecl::cast(node)),
            _ => unreached(),
        }
    }

    /// The raw node this view wraps, for round-tripping.
    pub fn node(&self) -> (r: &'b Node)
        ensures
            *r == self.node_spec(),
    {
        match self {
            TopLevelDecl::Mod(v) => v.node,
            TopLevelDecl::Import(v) => v.node,
            TopLevelDecl::Enum(v) => v.node,
            TopLevelDecl::Fn(v) => v.node,
            TopLevelDecl::Struct(v) => v.node,
            TopLevelDecl::Type(v) => v.node,
            TopLevelDecl::Const(v) => v.node,
        }
    }
}

/// The sum-typed view over the alternate of an if-expression: a
/// chained else-if, or a final else block.
#[derive(Debug, Clone, Copy)]
pub enum IfAlt<'b> {
    ElseIf(IfExpr<'b>),
    Else(BlockExpr<'b>),
}

impl<'b> IfAlt<'b> {
    /// The raw node this view wraps.
    pub open spec fn node_spec(self) -> Node {
        match self {
            IfAlt::ElseIf(v) => *v.node,
            IfAlt::Else(v) => *v.node,
        }
    }

    pub open spec fn wf(self) -> bool {
        match self {
            IfAlt::ElseIf(v) => v.wf(),
            IfAlt::Else(v) => v.wf(),
        }
    }

    /// Wraps a raw alternate node as an else-if or an else block.
    pub fn cast(node: &'b Node) -> (r: IfAlt<'b>)
        requires
            node.kind.0 == NodeType::IfExpr || node.kind.0 == NodeType::BlockExpr,
            node.children is Some,
            node_wf(*node),
        ensures
            r.wf(),
            r.node_spec() == *node,
    {
        match node.kind.0 {
            NodeType::IfExpr => IfAlt::ElseIf(IfExpr::cast(node)),
            NodeType::BlockExpr => IfAlt::Else(BlockExpr::cast(node)),
            _ => unreached(),
        }
    }

    /// The raw node this view wraps, for round-tripping.
    pub fn node(&self) -> (r: &'b Node)
        ensures
            *r == self.node_spec(),
    {
        match self {
            IfAlt::ElseIf(v) => v.node,
            IfAlt::Else(v) => v.node,
        }
    }
}

} // verus!
