use vstd::prelude::*;

use crate::ast::{child_wf, node_wf, Node, NodeChild, NodeType};
use crate::token::{Tag, Token};
use crate::views;

verus! {

/// The depth-first, pre-order traversal contract the tree supports:
/// one callback per concrete node kind and one per concrete token
/// kind. Every callback defaults to doing nothing, so a consumer
/// implements only what it reads. Downstream consumers (type
/// checking, code generation) implement this trait.
pub trait Visitor {
    fn visit_top_level_declarations<'b>(&mut self, node: views::TopDeclList<'b>) {
    }

    fn visit_module<'b>(&mut self, node: views::Module<'b>) {
    }

    fn visit_import_declaration<'b>(&mut self, node: views::ImportDecl<'b>) {
    }

    fn visit_enum_declaration<'b>(&mut self, node: views::EnumDecl<'b>) {
    }

    fn visit_variant_list<'b>(&mut self, node: views::VariantList<'b>) {
    }

    fn visit_variant<'b>(&mut self, node: views::Variant<'b>) {
    }

    fn visit_function_defintion<'b>(&mut self, node: views::FnDef<'b>) {
    }

    fn visit_struct_declaration<'b>(&mut self, node: views::StructDecl<'b>) {
    }

    fn visit_field_list<'b>(&mut self, node: views::FieldList<'b>) {
    }

    fn visit_field<'b>(&mut self, node: views::Field<'b>) {
    }

    fn visit_type_alias<'b>(&mut self, node: views::TypeAlias<'b>) {
    }

    fn visit_const_declaration<'b>(&mut self, node: views::ConstDecl<'b>) {
    }

    fn visit_variable_declaration<'b>(&mut self, node: views::VarDecl<'b>) {
    }

    fn visit_expression_statement<'b>(&mut self, node: views::ExprStmt<'b>) {
    }

    fn visit_statement_list<'b>(&mut self, node: views::StmtList<'b>) {
    }

    fn visit_infix_expression<'b>(&mut self, node: views::Infix<'b>) {
    }

    fn visit_prefix_expression<'b>(&mut self, node: views::Prefix<'b>) {
    }

    fn visit_group_expression<'b>(&mut self, node: views::Group<'b>) {
    }

    fn visit_block_expression<'b>(&mut self, node: views::BlockExpr<'b>) {
    }

    fn visit_if_expression<'b>(&mut self, node: views::IfExpr<'b>) {
    }

    fn visit_while_expression<'b>(&mut self, node: views::WhileExpr<'b>) {
    }

    fn visit_return_expression<'b>(&mut self, node: views::ReturnExpr<'b>) {
    }

    fn visit_continue_expression<'b>(&mut self, node: views::ContinueExpr<'b>) {
    }

    fn visit_assign_expression<'b>(&mut self, node: views::AssignExpr<'b>) {
    }

    fn visit_break_expression<'b>(&mut self, node: views::BreakExpr<'b>) {
    }

    fn visit_call_expression<'b>(&mut self, node: views::CallExpr<'b>) {
    }

    fn visit_method_call<'b>(&mut self, node: views::MethodCall<'b>) {
    }

    fn visit_arg_list<'b>(&mut self, node: views::ArgList<'b>) {
    }

    fn visit_array_expression<'b>(&mut self, node: views::ArrayExpr<'b>) {
    }

    fn visit_index_expression<'b>(&mut self, node: views::IndexExpr<'b>) {
    }

    fn visit_field_access_expression<'b>(&mut self, node: views::FieldAccessExpr<'b>) {
    }

    fn visit_tuple_expression<'b>(&mut self, node: views::TupleExpr<'b>) {
    }

    fn visit_struct_expression<'b>(&mut self, node: views::StructExpr<'b>) {
    }

    fn visit_field_init_list<'b>(&mut self, node: views::FieldInitList<'b>) {
    }

    fn visit_field_init<'b>(&mut self, node: views::FieldInit<'b>) {
    }

    fn visit_tuple_type<'b>(&mut self, node: views::TupleType<'b>) {
    }

    fn visit_array_type<'b>(&mut self, node: views::ArrayType<'b>) {
    }

    fn visit_group_type<'b>(&mut self, node: views::GroupType<'b>) {
    }

    fn visit_fn_type<'b>(&mut self, node: views::FnType<'b>) {
    }

    fn visit_fn_type_param_list<'b>(&mut self, node: views::FnTypeParamList<'b>) {
    }

    fn visit_param_list<'b>(&mut self, node: views::ParamList<'b>) {
    }

    fn visit_param<'b>(&mut self, node: views::Param<'b>) {
    }

    fn visit_ident(&mut self, token: &Token) {
    }

    fn visit_string(&mut self, token: &Token) {
    }

    fn visit_number(&mut self, token: &Token) {
    }

    fn visit_bool(&mut self, token: &Token) {
    }
}

/// One callback the walk fires: a node callback, identified by the
/// node's kind, or a literal-token callback, identified by the
/// token's tag.
#[derive(PartialEq, Eq, Structural, Debug, Clone, Copy)]
pub enum VisitEvent {
    NodeKindVisited(NodeType),
    TokenVisited(Tag),
}

/// Whether the walk fires a callback for this token: exactly the four
/// literal kinds have one.
pub open spec fn token_dispatches(t: Token) -> bool {
    ||| t.tag == Tag::Ident
    ||| t.tag == Tag::Number
    ||| t.tag == Tag::Str
    ||| t.tag == Tag::Bool
}

/// Whether the walk fires a callback for this node: list productions
/// always (an empty list is still a list), the placeholder and the
/// never-assigned statement kinds never, and every other kind exactly
/// when the node is a real finished construct rather than a sentinel.
pub open spec fn walk_dispatches(n: Node) -> bool {
    match n.kind.0 {
        NodeType::TopDeclList | NodeType::ImportDecl | NodeType::VariantList
            | NodeType::FieldList | NodeType::StmtList | NodeType::ArgList | NodeType::ArrayExpr
            | NodeType::TupleExpr | NodeType::FieldInitList | NodeType::TupleType
            | NodeType::FnTypeParamList | NodeType::ParamList => true,
        NodeType::Any | NodeType::BlockStmt | NodeType::EmptyStmt => false,
        _ => !n.spec_is_null() && !n.spec_is_invalid(),
    }
}

/// The callbacks a depth-first pre-order walk of this node fires, in
/// order: the node's own (when it dispatches), then its children's,
/// left to right.
pub open spec fn preorder_kinds(n: Node) -> Seq<VisitEvent>
    decreases n,
{
    let own = if walk_dispatches(n) {
        seq![VisitEvent::NodeKindVisited(n.kind.0)]
    } else {
        Seq::<VisitEvent>::empty()
    };
    match n.children {
        Some(v) => own + preorder_kinds_children(v@),
        None => own,
    }
}

/// The callbacks contributed by a row of children, in order.
pub open spec fn preorder_kinds_children(s: Seq<NodeChild>) -> Seq<VisitEvent>
    decreases s,
{
    if s.len() == 0 {
        Seq::empty()
    } else {
        preorder_kinds_child(s[0]) + preorder_kinds_children(s.drop_first())
    }
}

/// The callbacks contributed by one child: a nested node's whole
/// pre-order, and one token event for each literal token.
pub open spec fn preorder_kinds_child(c: NodeChild) -> Seq<VisitEvent>
    decreases c,
{
    match c {
        NodeChild::Node(n) => preorder_kinds(n),
        NodeChild::Token(t) => if token_dispatches(t) {
            seq![VisitEvent::TokenVisited(t.tag)]
        } else {
            Seq::<VisitEvent>::empty()
        },
    }
}

/// Extending a processed prefix of a child row by one child appends
/// exactly that child's contribution.
proof fn lemma_preorder_children_snoc(s: Seq<NodeChild>, i: int)
    requires
        0 <= i < s.len(),
    ensures
        preorder_kinds_children(s.take(i + 1)) == preorder_kinds_children(s.take(i))
            + preorder_kinds_child(s[i]),
    decreases i,
{
    if i == 0 {
        assert(s.take(0) =~= Seq::<NodeChild>::empty());
        assert(preorder_kinds_children(s.take(0)) == Seq::<VisitEvent>::empty());
        let one = s.take(1);
        assert(one.len() == 1);
        assert(one[0] == s[0]);
        assert(one.drop_first() =~= s.take(0));
        assert(preorder_kinds_children(one) == preorder_kinds_child(one[0])
            + preorder_kinds_children(one.drop_first()));
        assert(preorder_kinds_children(s.take(1)) =~= preorder_kinds_children(s.take(0))
            + preorder_kinds_child(s[0]));
    } else {
        let rest = s.drop_first();
        lemma_preorder_children_snoc(rest, i - 1);
        assert(s.take(i + 1).drop_first() =~= rest.take(i));
        assert(s.take(i).drop_first() =~= rest.take(i - 1));
        assert(s.take(i + 1)[0] == s[0]);
        assert(s.take(i)[0] == s[0]);
        assert(preorder_kinds_children(s.take(i + 1)) =~= preorder_kinds_child(s[0])
            + preorder_kinds_children(rest.take(i)));
        assert(preorder_kinds_children(s.take(i)) =~= preorder_kinds_child(s[0])
            + preorder_kinds_children(rest.take(i - 1)));
        assert(preorder_kinds_children(s.take(i + 1)) =~= preorder_kinds_children(s.take(i))
            + preorder_kinds_child(s[i]));
    }
}

/// Walks a well-shaped tree depth first in pre-order, dispatching one
/// visitor callback per concrete node or literal-token kind. The
/// designated "absent optional" sentinel is skipped silently;
/// structural tokens (operators, delimiters) carry no callback of
/// their own and are skipped as well. The ghost trace records the
/// kind of every node callback fired, in dispatch order.
pub struct Walker<'b, T> {
    pub tree: &'b Node,
    pub visitor: T,
    pub trace: Ghost<Seq<VisitEvent>>,
}

impl<'b, T: Visitor> Walker<'b, T> {
    pub fn new(tree: &'b Node, visitor: T) -> (w: Walker<'b, T>)
        ensures
            w.tree == tree,
            w.trace@ == Seq::<VisitEvent>::empty(),
    {
        Walker { tree, visitor, trace: Ghost(Seq::empty()) }
    }

    /// Traverses the whole tree. Well-shapedness is what rules the
    /// mismatched-kind defects out: every dispatch below is proved
    /// exhaustive over the kinds a well-shaped tree can hold; the
    /// trace afterwards holds exactly the tree's pre-order callback
    /// kinds, appended to whatever it held before.
    pub fn walk(&mut self)
        requires
            node_wf(*old(self).tree),
        ensures
            final(self).tree == old(self).tree,
            final(self).trace@ == old(self).trace@ + preorder_kinds(*old(self).tree),
    {
        let t = self.tree;
        self.walk_node(t);
    }

    /// Dispatches one node's callback, then its children, left to
    /// right. A childless node is a sentinel or an empty list: empty
    /// lists still dispatch their list callback, placeholders are
    /// skipped.
    fn walk_node(&mut self, node: &Node)
        requires
            node_wf(*node),
        ensures
            final(self).tree == old(self).tree,
            final(self).trace@ == old(self).trace@ + preorder_kinds(*node),
        decreases *node,
    {
        proof {
            if walk_dispatches(*node) {
                self.trace@ = self.trace@.push(VisitEvent::NodeKindVisited(node.kind.0));
            }
        }
        match node.kind.0 {
            NodeType::TopDeclList => self.visitor.visit_top_level_declarations(
                views::TopDeclList::cast(node),
            ),
            NodeType::Module => {
                if !node.is_null() && !node.is_invalid() {
                    self.visitor.visit_module(views::Module::cast(node));
                }
            },
            NodeType::ImportDecl => self.visitor.visit_import_declaration(
                views::ImportDecl::cast(node),
            ),
            NodeType::EnumDecl => {
                if !node.is_null() && !node.is_invalid() {
                    self.visitor.visit_enum_declaration(views::EnumDecl::cast(node));
                }
            },
            NodeType::VariantList => self.visitor.visit_variant_list(
                views::VariantList::cast(node),
            ),
            NodeType::Variant => {
                if !node.is_null() && !node.is_invalid() {
                    self.visitor.visit_variant(views::Variant::cast(node));
                }
            },
            NodeType::FnDef => {
                if !node.is_null() && !node.is_invalid() {
                    self.visitor.visit_function_defintion(views::FnDef::cast(node));
                }
            },
            NodeType::StructDecl => {
                if !node.is_null() && !node.is_invalid() {
                    self.visitor.visit_struct_declaration(views::StructDecl::cast(node));
                }
            },
            NodeType::FieldList => self.visitor.visit_field_list(views::FieldList::cast(node)),
            NodeType::Field => {
                if !node.is_null() && !node.is_invalid() {
                    self.visitor.visit_field(views::Field::cast(node));
                }
            },
            NodeType::TypeAlias => {
                if !node.is_null() && !node.is_invalid() {
                    self.visitor.visit_type_alias(views::TypeAlias::cast(node));
                }
            },
            NodeType::ConstDecl => {
                if !node.is_null() && !node.is_invalid() {
                    self.visitor.visit_const_declaration(views::ConstDecl::cast(node));
                }
            },
            NodeType::VarDecl => {
                if !node.is_null() && !node.is_invalid() {
                    self.visitor.visit_variable_declaration(views::VarDecl::cast(node));
                }
            },
            NodeType::ExprStmt => {
                if !node.is_null() && !node.is_invalid() {
                    self.visitor.visit_expression_statement(views::ExprStmt::cast(node));
                }
            },
            NodeType::StmtList => self.visitor.visit_statement_list(views::StmtList::cast(node)),
            NodeType::Infix => {
                if !node.is_null() && !node.is_invalid() {
                    self.visitor.visit_infix_expression(views::Infix::cast(node));
                }
            },
            NodeType::Prefix => {
                if !node.is_null() && !node.is_invalid() {
                    self.visitor.visit_prefix_expression(views::Prefix::cast(node));
                }
            },
            NodeType::Group => {
                if !node.is_null() && !node.is_invalid() {
                    self.visitor.visit_group_expression(views::Group::cast(node));
                }
            },
            NodeType::BlockExpr => {
                if !node.is_null() && !node.is_invalid() {
                    self.visitor.visit_block_expression(views::BlockExpr::cast(node));
                }
            },
            NodeType::IfExpr => {
                if !node.is_null() && !node.is_invalid() {
                    self.visitor.visit_if_expression(views::IfExpr::cast(node));
                }
            },
            NodeType::WhileExpr => {
                if !node.is_null() && !node.is_invalid() {
                    self.visitor.visit_while_expression(views::WhileExpr::cast(node));
                }
            },
            NodeType::ReturnExpr => {
                if !node.is_null() && !node.is_invalid() {
                    self.visitor.visit_return_expression(views::ReturnExpr::cast(node));
                }
            },
            NodeType::ContinueExpr => {
                if !node.is_null() && !node.is_invalid() {
                    self.visitor.visit_continue_expression(views::ContinueExpr::cast(node));
                }
            },
            NodeType::AssignExpr => {
                if !node.is_null() && !node.is_invalid() {
                    self.visitor.visit_assign_expression(views::AssignExpr::cast(node));
                }
            },
            NodeType::BreakExpr => {
                if !node.is_null() && !node.is_invalid() {
                    self.visitor.visit_break_expression(views::BreakExpr::cast(node));
                }
            },
            NodeType::CallExpr => {
                if !node.is_null() && !node.is_invalid() {
                    self.visitor.visit_call_expression(views::CallExpr::cast(node));
                }
            },
            NodeType::MethodCall => {
                if !node.is_null() && !node.is_invalid() {
                    self.visitor.visit_method_call(views::MethodCall::cast(node));
                }
            },
            NodeType::ArgList => self.visitor.visit_arg_list(views::ArgList::cast(node)),
            NodeType::ArrayExpr => self.visitor.visit_array_expression(
                views::ArrayExpr::cast(node),
            ),
            NodeType::IndexExpr => {
                if !node.is_null() && !node.is_invalid() {
                    self.visitor.visit_index_expression(views::IndexExpr::cast(node));
                }
            },
            NodeType::FieldAccessExpr => {
                if !node.is_null() && !node.is_invalid() {
                    self.visitor.visit_field_access_expression(views::FieldAccessExpr::cast(node));
                }
            },
            NodeType::TupleExpr => self.visitor.visit_tuple_expression(
                views::TupleExpr::cast(node),
            ),
            NodeType::StructExpr => {
                if !node.is_null() && !node.is_invalid() {
                    self.visitor.visit_struct_expression(views::StructExpr::cast(node));
                }
            },
            NodeType::FieldInitList => self.visitor.visit_field_init_list(
                views::FieldInitList::cast(node),
            ),
            NodeType::FieldInit => {
                if !node.is_null() && !node.is_invalid() {
                    self.visitor.visit_field_init(views::FieldInit::cast(node));
                }
            },
            NodeType::TupleType => self.visitor.visit_tuple_type(views::TupleType::cast(node)),
            NodeType::ArrayType => {
                if !node.is_null() && !node.is_invalid() {
                    self.visitor.visit_array_type(views::ArrayType::cast(node));
                }
            },
            NodeType::GroupType => {
                if !node.is_null() && !node.is_invalid() {
                    self.visitor.visit_group_type(views::GroupType::cast(node));
                }
            },
            NodeType::FnType => {
                if !node.is_null() && !node.is_invalid() {
                    self.visitor.visit_fn_type(views::FnType::cast(node));
                }
            },
            NodeType::FnTypeParamList => self.visitor.visit_fn_type_param_list(
                views::FnTypeParamList::cast(node),
            ),
            NodeType::ParamList => self.visitor.visit_param_list(views::ParamList::cast(node)),
            NodeType::Param => {
                if !node.is_null() && !node.is_invalid() {
                    self.visitor.visit_param(views::Param::cast(node));
                }
            },
            // The "absent optional" sentinel and the never-assigned
            // statement kinds carry no callback.
            NodeType::Any => {},
            NodeType::BlockStmt => {},
            NodeType::EmptyStmt => {},
        }

        let ghost own: Seq<VisitEvent> = if walk_dispatches(*node) {
            seq![VisitEvent::NodeKindVisited(node.kind.0)]
        } else {
            Seq::<VisitEvent>::empty()
        };
        let cs = match &node.children {
            Some(v) => v,
            None => {
                proof {
                    assert(self.trace@ =~= old(self).trace@ + preorder_kinds(*node));
                }
                return ;
            },
        };
        let ghost gnode = *node;
        proof {
            assert(cs@.take(0) =~= Seq::<NodeChild>::empty());
            assert(preorder_kinds_children(cs@.take(0)) == Seq::<VisitEvent>::empty());
            assert(self.trace@ =~= old(self).trace@ + own + preorder_kinds_children(
                cs@.take(0),
            ));
        }
        let mut i: usize = 0;
        while i < cs.len()
            invariant
                node_wf(gnode),
                gnode == *node,
                gnode.children == Some(*cs),
                i <= cs@.len(),
                self.tree == old(self).tree,
                self.trace@ == old(self).trace@ + own + preorder_kinds_children(
                    cs@.take(i as int),
                ),
                own == (if walk_dispatches(gnode) {
                    seq![VisitEvent::NodeKindVisited(gnode.kind.0)]
                } else {
                    Seq::<VisitEvent>::empty()
                }),
            decreases cs@.len() - i,
        {
            proof {
                assert(child_wf(gnode.kids()[i as int]));
                assert(cs@.take(i as int).len() == i);
            }
            match &cs[i] {
                NodeChild::Node(child) => {
                    proof {
                        let ocs = gnode.children;
                        let v = gnode.children->Some_0;
                        assert(v@[i as int] == NodeChild::Node(*child));
                        assert(decreases_to!(gnode => ocs));
                        assert(decreases_to!(ocs => v));
                        assert(decreases_to!(v => v@));
                        assert(decreases_to!(v@ => v@[i as int]));
                        assert(decreases_to!(v@[i as int] => *child));
                        assert(decreases_to!(gnode => *child));
                    }
                    self.walk_node(child);
                    proof {
                        assert(preorder_kinds_child(cs@[i as int]) == preorder_kinds(*child));
                    }
                },
                NodeChild::Token(token) => {
                    let ghost gtok = *token;
                    self.walk_token(token);
                    proof {
                        assert(cs@[i as int] == NodeChild::Token(gtok));
                    }
                },
            }
            proof {
                lemma_preorder_children_snoc(cs@, i as int);
                assert(self.trace@ =~= old(self).trace@ + own + preorder_kinds_children(
                    cs@.take(i + 1),
                ));
            }
            i = i + 1;
        }
        proof {
            assert(cs@.take(cs@.len() as int) =~= cs@);
            assert(self.trace@ =~= old(self).trace@ + preorder_kinds(gnode));
        }
    }

    /// Dispatches one token's callback: the four literal kinds each
    /// have one; structural tokens and the empty token are skipped.
    fn walk_token(&mut self, token: &Token)
        ensures
            final(self).tree == old(self).tree,
            final(self).trace@ == old(self).trace@ + preorder_kinds_child(
                NodeChild::Token(*token),
            ),
    {
        proof {
            if token_dispatches(*token) {
                self.trace@ = self.trace@.push(VisitEvent::TokenVisited(token.tag));
            }
        }
        match token.tag {
            Tag::Ident => self.visitor.visit_ident(token),
            Tag::Number => self.visitor.visit_number(token),
            Tag::Str => self.visitor.visit_string(token),
            Tag::Bool => self.visitor.visit_bool(token),
            _ => {},
        }
        proof {
            assert(self.trace@ =~= old(self).trace@ + preorder_kinds_child(
                NodeChild::Token(*token),
            ));
        }
    }
}

} // verus!
