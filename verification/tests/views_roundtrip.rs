use haze::ast::{Node, NodeAttr, NodeBuilder, NodeChild, NodeType};
use haze::parser::Parser;
use haze::token::{Tag, Token};
use haze::views::{BlockExpr, Expr, IfAlt, IfExpr};
use haze::visitor::{Visitor, Walker};

/// Builds the if-expression `if c { } else { }` by hand, through the
/// same builder the parser uses, and reads it back through the typed
/// view: each accessor must reproduce exactly the child the builder
/// placed.
#[test]
fn if_view_reproduces_builder_children() {
    let cond = Token::new(Tag::Ident, "c".to_string(), 3, 1);

    let mut stmts = NodeBuilder::from_type(NodeType::StmtList);
    let consequence_body = stmts.finish(false);
    let mut block = NodeBuilder::from_type(NodeType::BlockExpr);
    block.add(NodeChild::Node(consequence_body));
    let consequence = block.finish(false);

    let mut stmts2 = NodeBuilder::from_type(NodeType::StmtList);
    let alt_body = stmts2.finish(false);
    let mut block2 = NodeBuilder::from_type(NodeType::BlockExpr);
    block2.add(NodeChild::Node(alt_body));
    let alternate = block2.finish(false);

    let mut b = NodeBuilder::from_type(NodeType::IfExpr);
    b.add(NodeChild::Token(cond.dup()));
    b.add(NodeChild::Node(consequence));
    b.add(NodeChild::Node(alternate));
    let node = b.finish(false);

    let view = IfExpr::cast(&node);
    match view.condition() {
        Expr::Ident(t) => {
            assert_eq!(t.token().value, "c");
            assert_eq!(t.token().pos, 3);
        },
        _ => panic!("the condition should be the identifier placed by the builder"),
    }
    let cons: BlockExpr = view.consequence();
    assert_eq!(cons.node().kind.0, NodeType::BlockExpr);
    assert_eq!(cons.body().count(), 0);
    match view.alternate() {
        Some(IfAlt::Else(blk)) => assert_eq!(blk.node().kind.0, NodeType::BlockExpr),
        _ => panic!("the alternate should be the else block placed by the builder"),
    }
}

/// An if-expression without an alternate reports the explicit
/// "no alternate" result: the slot is occupied by the placeholder,
/// never left unindexed.
#[test]
fn if_view_reports_no_alternate() {
    let mut parser = Parser::new("if a { }");
    parser.next();
    let node = parser.if_expr().expect("the if-expression should parse");
    assert!(parser.errors.is_empty());

    assert_eq!(node.children.as_ref().unwrap().len(), 3);
    let view = IfExpr::cast(&node);
    assert!(view.alternate().is_none());
}

#[test]
fn else_if_chains_round_trip() {
    let mut parser = Parser::new("if a { } else if b { } else { }");
    parser.next();
    let node = parser.if_expr().expect("the chain should parse");
    assert!(parser.errors.is_empty());
    let view = IfExpr::cast(&node);
    match view.alternate() {
        Some(IfAlt::ElseIf(inner)) => {
            match inner.condition() {
                Expr::Ident(t) => assert_eq!(t.token().value, "b"),
                _ => panic!("the inner condition should be `b`"),
            }
            assert!(matches!(inner.alternate(), Some(IfAlt::Else(_))));
        },
        _ => panic!("the alternate should be the chained else-if"),
    }
}

/// The builder's finish decides between a legal empty construct and a
/// degenerate one: an empty child list is tagged `Invalid` exactly
/// when the caller opted in.
#[test]
fn builder_finish_marks_empty_nodes() {
    let b = NodeBuilder::from_type(NodeType::FieldList);
    let degenerate = b.finish(true);
    assert!(degenerate.children.is_none());
    assert!(degenerate.is_invalid());
    assert!(!degenerate.is_null());

    let b = NodeBuilder::from_type(NodeType::StmtList);
    let legal_empty = b.finish(false);
    assert!(legal_empty.children.is_none());
    assert!(!legal_empty.is_invalid());
    assert!(legal_empty.is_null());

    let mut b = NodeBuilder::from_type(NodeType::ReturnExpr);
    b.add(NodeChild::Node(Node::null(NodeType::Any)));
    let filled = b.finish(true);
    // A node with children is never marked by the flag.
    assert_eq!(filled.kind.1, NodeAttr::Valid);
    assert_eq!(filled.children.as_ref().unwrap().len(), 1);
}

#[test]
fn null_and_invalid_sentinels() {
    let null = Node::null(NodeType::Any);
    assert!(null.is_null());
    assert!(!null.is_invalid());
    assert_eq!(null.child_count(), 0);

    let bad = Node::invalid(NodeType::FieldList);
    assert!(bad.is_invalid());
    assert!(!bad.is_null());

    assert_eq!(haze::ast::NodeKind::from_type(NodeType::Group).0, NodeType::Group);
    assert_eq!(haze::ast::NodeKind::from_type(NodeType::Group).1, NodeAttr::Valid);
}

#[test]
fn tag_classifiers() {
    assert!(haze::ast::tag_is_binop(Tag::Plus));
    assert!(haze::ast::tag_is_binop(Tag::EqualEqual));
    assert!(!haze::ast::tag_is_binop(Tag::Equal));
    assert!(!haze::ast::tag_is_binop(Tag::Bang));
    assert!(haze::ast::tag_is_unaryop(Tag::Minus));
    assert!(haze::ast::tag_is_unaryop(Tag::Bang));
    assert!(!haze::ast::tag_is_unaryop(Tag::Plus));
    assert!(haze::ast::tag_is_literal(Tag::Ident));
    assert!(haze::ast::tag_is_literal(Tag::Str));
    assert!(haze::ast::tag_is_literal(Tag::Number));
    assert!(haze::ast::tag_is_literal(Tag::Bool));
    assert!(!haze::ast::tag_is_literal(Tag::Comma));
}

/// A walker dispatches one callback per concrete node or literal
/// token kind, pre-order; the sentinel slot is skipped silently.
#[test]
fn walker_dispatches_identifiers() {
    struct NameCollector {
        names: Vec<String>,
    }

    impl Visitor for NameCollector {
        fn visit_ident(&mut self, token: &Token) {
            self.names.push(token.value.clone());
        }
    }

    let mut parser = Parser::new("fn f(a: int) -> int { return a; }");
    let tree = parser.parse();
    assert!(parser.errors.is_empty());

    let mut walker = Walker::new(&tree, NameCollector { names: Vec::new() });
    walker.walk();
    // Pre-order over the definition's slots: the name, the parameter
    // and its type, the body's identifier, then the trailing
    // return-type slot.
    assert_eq!(walker.visitor.names, vec!["f", "a", "int", "a", "int"]);
}
