use vstd::prelude::*;

use crate::token::{Tag, Token};

verus! {

/// The closed set of grammar productions a node can represent, plus
/// `Any`, the generic placeholder used before a concrete type is
/// assigned (and as the sentinel for a legally absent optional slot).
#[derive(PartialEq, Eq, Structural, Debug, Clone, Copy)]
pub enum NodeType {
    VarDecl,
    FnDef,
    BlockStmt,
    ExprStmt,
    EmptyStmt,

    Infix,
    Prefix,
    Group,
    BlockExpr,
    IfExpr,
    WhileExpr,
    ReturnExpr,
    ContinueExpr,
    AssignExpr,
    CallExpr,
    ArrayExpr,
    BreakExpr,
    StmtList,
    TopDeclList,
    Module,
    ImportDecl,
    EnumDecl,
    VariantList,
    Variant,
    StructDecl,
    FieldList,
    Field,
    TypeAlias,
    ConstDecl,
    TupleExpr,
    TupleType,
    ArrayType,
    GroupType,
    FnType,
    FnTypeParamList,
    ParamList,
    Param,
    ArgList,
    FieldAccessExpr,
    IndexExpr,
    MethodCall,
    StructExpr,
    FieldInitList,
    FieldInit,

    Any,
}

/// Marks a node that occupies tree shape but failed semantic
/// completion (`Invalid`); `Valid` is the ordinary case.
#[derive(PartialEq, Eq, Structural, Debug, Clone, Copy)]
pub enum NodeAttr {
    Valid,
    Invalid,
}

/// A node's kind: its production together with its attribute.
#[derive(PartialEq, Eq, Structural, Debug, Clone, Copy)]
pub struct NodeKind(pub NodeType, pub NodeAttr);

impl NodeKind {
    pub fn from_type(node_type: NodeType) -> (k: NodeKind)
        ensures
            k == NodeKind(node_type, NodeAttr::Valid),
    {
        NodeKind(node_type, NodeAttr::Valid)
    }
}

pub open spec fn spec_tag_is_binop(tag: Tag) -> bool {
    ||| tag == Tag::Plus
    ||| tag == Tag::Minus
    ||| tag == Tag::Slash
    ||| tag == Tag::Asterisk
    ||| tag == Tag::BangEqual
    ||| tag == Tag::EqualEqual
    ||| tag == Tag::Greater
    ||| tag == Tag::GreaterEqual
    ||| tag == Tag::Less
    ||| tag == Tag::LessEqual
}

/// Whether the tag is a binary (infix) operator of the expression grammar.
#[verifier::when_used_as_spec(spec_tag_is_binop)]
pub fn tag_is_binop(tag: Tag) -> (r: bool)
    ensures
        r == spec_tag_is_binop(tag),
{
    match tag {
        Tag::Plus
        | Tag::Minus
        | Tag::Slash
        | Tag::Asterisk
        | Tag::BangEqual
        | Tag::EqualEqual
        | Tag::Greater
        | Tag::GreaterEqual
        | Tag::Less
        | Tag::LessEqual => true,
        _ => false,
    }
}

pub open spec fn spec_tag_is_unaryop(tag: Tag) -> bool {
    tag == Tag::Minus || tag == Tag::Bang
}

/// Whether the tag is a prefix (unary) operator.
#[verifier::when_used_as_spec(spec_tag_is_unaryop)]
pub fn tag_is_unaryop(tag: Tag) -> (r: bool)
    ensures
        r == spec_tag_is_unaryop(tag),
{
    match tag {
        Tag::Minus | Tag::Bang => true,
        _ => false,
    }
}

pub open spec fn spec_tag_is_literal(tag: Tag) -> bool {
    ||| tag == Tag::Ident
    ||| tag == Tag::Str
    ||| tag == Tag::Number
    ||| tag == Tag::Bool
}

/// Whether the tag is a literal token, which is a valid expression by itself.
#[verifier::when_used_as_spec(spec_tag_is_literal)]
pub fn tag_is_literal(tag: Tag) -> (r: bool)
    ensures
        r == spec_tag_is_literal(tag),
{
    match tag {
        Tag::Ident | Tag::Str | Tag::Number | Tag::Bool => true,
        _ => false,
    }
}

/// A tree node: a kind, and either no children (a sentinel or a
/// deliberately empty list) or a fixed, ordered list of children.
#[derive(Debug, PartialEq)]
pub struct Node {
    pub kind: NodeKind,
    pub children: Option<Vec<NodeChild>>,
}

/// One slot of a node: either a nested node or a token.
#[derive(Debug, PartialEq)]
pub enum NodeChild {
    Node(Node),
    Token(Token),
}

impl Node {
    /// The sentinel for "legally absent": a childless node of the
    /// given type with no attribute set.
    pub fn null(node_type: NodeType) -> (n: Node)
        ensures
            n.kind == NodeKind(node_type, NodeAttr::Valid),
            n.children is None,
            n.is_null(),
    {
        Node { kind: NodeKind(node_type, NodeAttr::Valid), children: None }
    }

    /// A childless node marked `Invalid`: tree shape that failed
    /// semantic completion.
    pub fn invalid(node_type: NodeType) -> (n: Node)
        ensures
            n.kind == NodeKind(node_type, NodeAttr::Invalid),
            n.children is None,
    {
        Node { kind: NodeKind(node_type, NodeAttr::Invalid), children: None }
    }

    pub open spec fn spec_is_null(&self) -> bool {
        self.kind.1 != NodeAttr::Invalid && self.children is None
    }

    /// Whether this node is the "legally absent" sentinel.
    #[verifier::when_used_as_spec(spec_is_null)]
    pub fn is_null(&self) -> (r: bool)
        ensures
            r == self.spec_is_null(),
    {
        self.kind.1 != NodeAttr::Invalid && self.children.is_none()
    }

    pub open spec fn spec_is_invalid(&self) -> bool {
        self.kind.1 == NodeAttr::Invalid
    }

    /// Whether this node was marked as a failed construct.
    #[verifier::when_used_as_spec(spec_is_invalid)]
    pub fn is_invalid(&self) -> (r: bool)
        ensures
            r == self.spec_is_invalid(),
    {
        self.kind.1 == NodeAttr::Invalid
    }

    /// The sequence of children of this node; the empty sequence for a
    /// childless node.
    pub open spec fn kids(&self) -> Seq<NodeChild> {
        match self.children {
            Some(v) => v@,
            None => Seq::empty(),
        }
    }

    /// Borrow the child list of a node known to have one.
    pub fn children(&self) -> (r: &Vec<NodeChild>)
        requires
            self.children is Some,
        ensures
            r@ == self.kids(),
    {
        match &self.children {
            Some(v) => v,
            None => unreached(),
        }
    }

    /// How many children the node has (zero for a childless node).
    pub fn child_count(&self) -> (r: usize)
        ensures
            r == self.kids().len(),
    {
        match &self.children {
            Some(v) => v.len(),
            None => 0,
        }
    }
}

/// An accumulator that assembles a node's children incrementally and
/// finalizes it exactly once; a pure data operation that raises no error.
pub struct NodeBuilder {
    pub kind: NodeKind,
    pub children: Vec<NodeChild>,
}

impl NodeBuilder {
    pub fn from_type(kind: NodeType) -> (b: NodeBuilder)
        ensures
            b.kind == NodeKind(kind, NodeAttr::Valid),
            b.children@ =~= Seq::<NodeChild>::empty(),
    {
        NodeBuilder { kind: NodeKind(kind, NodeAttr::Valid), children: Vec::new() }
    }

    /// Append one child (a node or a token) to the accumulated list.
    pub fn add(&mut self, child: NodeChild)
        ensures
            final(self).kind == old(self).kind,
            final(self).children@ == old(self).children@.push(child),
    {
        self.children.push(child);
    }

    /// Finalize the node. An empty child list yields a childless node,
    /// tagged `Invalid` exactly when the caller opted in via `invalid`
    /// (for genuinely required lists, where zero elements signals a
    /// degenerate parse rather than a legal empty construct).
    pub fn finish(self, invalid: bool) -> (n: Node)
        ensures
            n.kind.0 == self.kind.0,
            self.children@.len() == 0 ==> n.children is None && (n.kind.1 == NodeAttr::Invalid
                <==> invalid),
            self.children@.len() > 0 ==> n.kids() == self.children@ && n.children is Some
                && n.kind.1 == NodeAttr::Valid,
    {
        let has_children = self.children.len() > 0;
        Node {
            kind: NodeKind(
                self.kind.0,
                if !has_children && invalid {
                    NodeAttr::Invalid
                } else {
                    NodeAttr::Valid
                },
            ),
            children: if has_children {
                Some(self.children)
            } else {
                None
            },
        }
    }
}

// ---------------------------------------------------------------------
// Well-shapedness: the invariant every finished tree satisfies.
// ---------------------------------------------------------------------

/// The list productions: their shape is "zero or more of the declared
/// element kind" rather than a fixed arity.
pub open spec fn list_kind(t: NodeType) -> bool {
    ||| t == NodeType::StmtList
    ||| t == NodeType::TopDeclList
    ||| t == NodeType::ImportDecl
    ||| t == NodeType::VariantList
    ||| t == NodeType::FieldList
    ||| t == NodeType::FieldInitList
    ||| t == NodeType::ParamList
    ||| t == NodeType::ArgList
    ||| t == NodeType::ArrayExpr
    ||| t == NodeType::TupleExpr
    ||| t == NodeType::TupleType
    ||| t == NodeType::FnTypeParamList
}

/// The fixed number of child slots of each non-list production.
pub open spec fn arity(t: NodeType) -> nat {
    match t {
        NodeType::VarDecl => 3,
        NodeType::FnDef => 4,
        NodeType::BlockStmt => 1,
        NodeType::ExprStmt => 1,
        NodeType::EmptyStmt => 1,
        NodeType::Infix => 3,
        NodeType::Prefix => 2,
        NodeType::Group => 1,
        NodeType::BlockExpr => 1,
        NodeType::IfExpr => 3,
        NodeType::WhileExpr => 2,
        NodeType::ReturnExpr => 1,
        NodeType::ContinueExpr => 1,
        NodeType::AssignExpr => 2,
        NodeType::CallExpr => 2,
        NodeType::BreakExpr => 1,
        NodeType::Module => 2,
        NodeType::EnumDecl => 2,
        NodeType::Variant => 2,
        NodeType::StructDecl => 2,
        NodeType::Field => 2,
        NodeType::TypeAlias => 2,
        NodeType::ConstDecl => 3,
        NodeType::ArrayType => 2,
        NodeType::GroupType => 1,
        NodeType::FnType => 1,
        NodeType::Param => 2,
        NodeType::FieldAccessExpr => 2,
        NodeType::IndexExpr => 2,
        NodeType::MethodCall => 3,
        NodeType::StructExpr => 2,
        NodeType::FieldInit => 2,
        _ => 0,
    }
}

/// The node kinds that stand in expression position.
pub open spec fn is_expr_kind(t: NodeType) -> bool {
    ||| t == NodeType::Infix
    ||| t == NodeType::Prefix
    ||| t == NodeType::ContinueExpr
    ||| t == NodeType::BreakExpr
    ||| t == NodeType::ReturnExpr
    ||| t == NodeType::Group
    ||| t == NodeType::ArrayExpr
    ||| t == NodeType::CallExpr
    ||| t == NodeType::IndexExpr
    ||| t == NodeType::FieldAccessExpr
    ||| t == NodeType::MethodCall
    ||| t == NodeType::TupleExpr
    ||| t == NodeType::IfExpr
    ||| t == NodeType::WhileExpr
    ||| t == NodeType::BlockExpr
    ||| t == NodeType::StructExpr
    ||| t == NodeType::AssignExpr
}

/// The node kinds that stand in type-expression position.
pub open spec fn is_type_kind(t: NodeType) -> bool {
    ||| t == NodeType::TupleType
    ||| t == NodeType::ArrayType
    ||| t == NodeType::GroupType
    ||| t == NodeType::FnType
}

/// The top-level declaration kinds.
pub open spec fn is_top_decl_kind(t: NodeType) -> bool {
    ||| t == NodeType::Module
    ||| t == NodeType::ImportDecl
    ||| t == NodeType::EnumDecl
    ||| t == NodeType::FnDef
    ||| t == NodeType::StructDecl
    ||| t == NodeType::TypeAlias
    ||| t == NodeType::ConstDecl
}

/// The "legally absent" placeholder: a null node of the generic type.
pub open spec fn c_absent(c: NodeChild) -> bool {
    match c {
        NodeChild::Node(n) => n.kind.0 == NodeType::Any && n.is_null(),
        NodeChild::Token(_) => false,
    }
}

/// A slot holding a real expression: an expression-kind node with
/// children, or a non-empty literal token.
pub open spec fn c_expr(c: NodeChild) -> bool {
    match c {
        NodeChild::Node(n) => is_expr_kind(n.kind.0) && (n.children is Some || n.kind.0
            == NodeType::ArrayExpr || n.kind.0 == NodeType::TupleExpr),
        NodeChild::Token(t) => spec_tag_is_literal(t.tag) && !t.is_empty(),
    }
}

/// An optional expression slot: a real expression or the placeholder.
pub open spec fn c_opt_expr(c: NodeChild) -> bool {
    c_expr(c) || c_absent(c)
}

/// A slot holding a real type expression: a type-kind node with
/// children, or a non-empty identifier token.
pub open spec fn c_type(c: NodeChild) -> bool {
    match c {
        NodeChild::Node(n) => is_type_kind(n.kind.0) && n.children is Some,
        NodeChild::Token(t) => t.tag == Tag::Ident && !t.is_empty(),
    }
}

/// An optional type slot: a real type expression or the placeholder.
pub open spec fn c_opt_type(c: NodeChild) -> bool {
    c_type(c) || c_absent(c)
}

/// A name slot: an identifier token, or the empty token where the
/// identifier was required but absent.
pub open spec fn c_name(c: NodeChild) -> bool {
    match c {
        NodeChild::Node(_) => false,
        NodeChild::Token(t) => t.tag == Tag::Ident || t.is_empty(),
    }
}

/// A required identifier slot: a non-empty identifier token.
pub open spec fn c_ident(c: NodeChild) -> bool {
    match c {
        NodeChild::Node(_) => false,
        NodeChild::Token(t) => t.tag == Tag::Ident && !t.is_empty(),
    }
}

/// A token slot holding a token of the given tag, or the empty token.
pub open spec fn c_tok_or_empty(c: NodeChild, tag: Tag) -> bool {
    match c {
        NodeChild::Node(_) => false,
        NodeChild::Token(t) => t.tag == tag || t.is_empty(),
    }
}

/// A slot holding a binary operator token.
pub open spec fn c_binop(c: NodeChild) -> bool {
    match c {
        NodeChild::Node(_) => false,
        NodeChild::Token(t) => spec_tag_is_binop(t.tag) && !t.is_empty(),
    }
}

/// A slot holding a prefix operator token.
pub open spec fn c_unop(c: NodeChild) -> bool {
    match c {
        NodeChild::Node(_) => false,
        NodeChild::Token(t) => spec_tag_is_unaryop(t.tag) && !t.is_empty(),
    }
}

/// A slot holding a block expression node.
pub open spec fn c_block(c: NodeChild) -> bool {
    match c {
        NodeChild::Node(n) => n.kind.0 == NodeType::BlockExpr && n.children is Some,
        NodeChild::Token(_) => false,
    }
}

/// A slot holding a list node of the given list kind; a childless list
/// node stands for the deliberately empty (or degenerate) list.
pub open spec fn c_list(c: NodeChild, t: NodeType) -> bool {
    match c {
        NodeChild::Node(n) => n.kind.0 == t,
        NodeChild::Token(_) => false,
    }
}

/// The alternate slot of an if-expression: an else-if, an else block,
/// or the placeholder for "no alternate".
pub open spec fn c_if_alt(c: NodeChild) -> bool {
    match c {
        NodeChild::Node(n) => (n.kind.0 == NodeType::IfExpr && n.children is Some) || (n.kind.0
            == NodeType::BlockExpr && n.children is Some) || (n.kind.0 == NodeType::Any
            && n.is_null()),
        NodeChild::Token(_) => false,
    }
}

/// A statement-list element: a statement node, or a lone semicolon
/// token standing for the empty statement.
pub open spec fn c_stmt(c: NodeChild) -> bool {
    match c {
        NodeChild::Node(n) => (n.kind.0 == NodeType::VarDecl || n.kind.0 == NodeType::ExprStmt)
            && n.children is Some,
        NodeChild::Token(t) => t.tag == Tag::Semicolon && !t.is_empty(),
    }
}

/// A top-level-declaration-list element.
pub open spec fn c_top_decl(c: NodeChild) -> bool {
    match c {
        NodeChild::Node(n) => is_top_decl_kind(n.kind.0) && n.children is Some,
        NodeChild::Token(_) => false,
    }
}

/// A slot holding a finished node of the given production, with its
/// child slots filled.
pub open spec fn c_elem_node(c: NodeChild, t: NodeType) -> bool {
    match c {
        NodeChild::Node(n) => n.kind.0 == t && n.children is Some,
        NodeChild::Token(_) => false,
    }
}

/// What one element of each list production must be.
pub open spec fn elem_ok(t: NodeType, c: NodeChild) -> bool {
    match t {
        NodeType::StmtList => c_stmt(c),
        NodeType::TopDeclList => c_top_decl(c),
        NodeType::ImportDecl => c_ident(c),
        NodeType::VariantList => c_elem_node(c, NodeType::Variant),
        NodeType::FieldList => c_elem_node(c, NodeType::Field),
        NodeType::FieldInitList => c_elem_node(c, NodeType::FieldInit),
        NodeType::ParamList => c_elem_node(c, NodeType::Param),
        NodeType::ArgList => c_expr(c),
        NodeType::ArrayExpr => c_expr(c),
        NodeType::TupleExpr => c_expr(c),
        NodeType::TupleType => c_type(c),
        NodeType::FnTypeParamList => c_type(c),
        _ => false,
    }
}

/// The shape constraint of a node with children: for a list kind,
/// every element is of the declared element kind; otherwise the child
/// count equals the production's fixed arity and every slot is
/// occupied by what that slot calls for (a real sub-construct or the
/// designated placeholder).
pub open spec fn slots_ok(t: NodeType, cs: Seq<NodeChild>) -> bool {
    if list_kind(t) {
        forall|i: int| 0 <= i < cs.len() ==> elem_ok(t, #[trigger] cs[i])
    } else {
        cs.len() == arity(t) && (match t {
            NodeType::VarDecl => c_name(cs[0]) && c_opt_type(cs[1]) && c_opt_expr(cs[2]),
            NodeType::FnDef => c_name(cs[0]) && c_list(cs[1], NodeType::ParamList) && (c_block(
                cs[2],
            ) || c_absent(cs[2])) && c_opt_type(cs[3]),
            NodeType::ExprStmt => c_expr(cs[0]),
            NodeType::Infix => c_expr(cs[0]) && c_binop(cs[1]) && c_expr(cs[2]),
            NodeType::Prefix => c_unop(cs[0]) && c_expr(cs[1]),
            NodeType::Group => c_expr(cs[0]),
            NodeType::BlockExpr => c_list(cs[0], NodeType::StmtList),
            NodeType::IfExpr => c_expr(cs[0]) && c_block(cs[1]) && c_if_alt(cs[2]),
            NodeType::WhileExpr => c_expr(cs[0]) && c_block(cs[1]),
            NodeType::ReturnExpr => c_opt_expr(cs[0]),
            NodeType::ContinueExpr => c_name(cs[0]),
            NodeType::AssignExpr => c_ident(cs[0]) && c_expr(cs[1]),
            NodeType::CallExpr => c_ident(cs[0]) && c_list(cs[1], NodeType::ArgList),
            NodeType::BreakExpr => c_opt_expr(cs[0]),
            NodeType::Module => c_name(cs[0]) && c_list(cs[1], NodeType::TopDeclList),
            NodeType::EnumDecl => c_name(cs[0]) && c_list(cs[1], NodeType::VariantList),
            NodeType::Variant => c_ident(cs[0]) && c_name(cs[1]),
            NodeType::StructDecl => c_name(cs[0]) && c_list(cs[1], NodeType::FieldList),
            NodeType::Field => c_ident(cs[0]) && c_type(cs[1]),
            NodeType::TypeAlias => c_name(cs[0]) && c_type(cs[1]),
            NodeType::ConstDecl => c_name(cs[0]) && c_type(cs[1]) && c_expr(cs[2]),
            NodeType::ArrayType => c_type(cs[0]) && c_tok_or_empty(cs[1], Tag::Number),
            NodeType::GroupType => c_type(cs[0]),
            NodeType::FnType => c_list(cs[0], NodeType::FnTypeParamList),
            NodeType::Param => c_name(cs[0]) && c_type(cs[1]),
            NodeType::FieldAccessExpr => c_expr(cs[0]) && c_ident(cs[1]),
            NodeType::IndexExpr => c_expr(cs[0]) && c_expr(cs[1]),
            NodeType::MethodCall => c_expr(cs[0]) && c_ident(cs[1]) && c_list(
                cs[2],
                NodeType::ArgList,
            ),
            NodeType::StructExpr => c_name(cs[0]) && c_list(cs[1], NodeType::FieldInitList),
            NodeType::FieldInit => c_ident(cs[0]) && c_expr(cs[1]),
            _ => false,
        })
    }
}

/// Well-shapedness of one child slot.
pub open spec fn child_wf(c: NodeChild) -> bool
    decreases c,
{
    match c {
        NodeChild::Node(n) => node_wf(n),
        NodeChild::Token(_) => true,
    }
}

/// Well-shapedness of a finished node: a childless node is a sentinel
/// or an empty list and is always well shaped; a node with children
/// satisfies its production's shape constraint, and every child is
/// recursively well shaped.
pub open spec fn node_wf(n: Node) -> bool
    decreases n,
{
    match n.children {
        None => true,
        Some(v) => slots_ok(n.kind.0, v@) && (forall|i: int|
            0 <= i < v@.len() ==> child_wf(#[trigger] v@[i])),
    }
}

/// A well-shaped child standing in expression position.
pub open spec fn wf_expr_child(c: NodeChild) -> bool {
    c_expr(c) && child_wf(c)
}

/// A well-shaped child standing in type-expression position.
pub open spec fn wf_type_child(c: NodeChild) -> bool {
    c_type(c) && child_wf(c)
}

/// A well-shaped finished node of the given production.
pub open spec fn wf_node(n: Node, t: NodeType) -> bool {
    n.kind.0 == t && n.children is Some && node_wf(n)
}

/// Well-shapedness, stated as the law of fixed arities: a finished
/// node of a non-list production has exactly as many children as the
/// production's arity.
pub proof fn lemma_fixed_arity(n: Node)
    requires
        node_wf(n),
        n.children is Some,
        !list_kind(n.kind.0),
    ensures
        n.kids().len() == arity(n.kind.0),
{
}

/// Sentinel completeness for the optional slots of a well-shaped
/// function definition: the body and return-type slots are always
/// occupied, by a real sub-construct or by the designated
/// placeholder, never left unindexed.
pub proof fn lemma_fn_sentinel_completeness(n: Node)
    requires
        node_wf(n),
        n.children is Some,
        n.kind.0 == NodeType::FnDef,
    ensures
        n.kids().len() == 4,
        c_name(n.kids()[0]),
        c_list(n.kids()[1], NodeType::ParamList),
        c_block(n.kids()[2]) || c_absent(n.kids()[2]),
        c_opt_type(n.kids()[3]),
{
}

/// Sentinel completeness for the optional slots of a well-shaped
/// if-expression: the alternate slot is always occupied, by a real
/// alternate or by the designated placeholder, never left unindexed.
pub proof fn lemma_if_sentinel_completeness(n: Node)
    requires
        node_wf(n),
        n.children is Some,
        n.kind.0 == NodeType::IfExpr,
    ensures
        n.kids().len() == 3,
        c_if_alt(n.kids()[2]),
        c_expr(n.kids()[0]),
        c_block(n.kids()[1]),
{
}

} // verus!
