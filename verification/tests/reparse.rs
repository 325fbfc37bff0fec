use haze::ast::NodeType;
use haze::parser::Parser;
use haze::views::{Expr, Stmt, TopDeclList, TopLevelDecl, TypeExpr};

/// Parsing the same source twice, each time from a fresh parser,
/// yields structurally identical trees: same kinds, same shape, and
/// the same diagnostics in the same order.
#[test]
fn reparse_is_idempotent() {
    let source = "
struct S { : bool, ready: bool }
fn f(a: int) -> int { return a + 1; }
import alpha.beta;
";
    let mut first = Parser::new(source);
    let tree_a = first.parse();
    let mut second = Parser::new(source);
    let tree_b = second.parse();

    assert_eq!(tree_a, tree_b);
    assert_eq!(first.errors, second.errors);
}

#[test]
fn reparse_of_clean_input_is_idempotent() {
    let source = "fn main() { let x: int = 2 * 21; println(x); }";
    let mut first = Parser::new(source);
    let tree_a = first.parse();
    let mut second = Parser::new(source);
    let tree_b = second.parse();
    assert_eq!(tree_a, tree_b);
    assert!(first.errors.is_empty());
    assert!(second.errors.is_empty());
}

/// The end-to-end example: one function with one parameter, a return
/// type, and a body of one return statement — and zero diagnostics.
#[test]
fn end_to_end_function() {
    let mut parser = Parser::new("fn f(a: int) -> int { return a; }");
    let tree = parser.parse();

    assert!(parser.errors.is_empty());
    assert_eq!(tree.kind.0, NodeType::TopDeclList);

    let decls = TopDeclList::cast(&tree);
    assert_eq!(decls.count(), 1);

    let f = match decls.item(0) {
        TopLevelDecl::Fn(f) => f,
        _ => panic!("expected one top-level function definition"),
    };
    assert!(f.name().token().value == "f");

    let params = f.params();
    assert_eq!(params.count(), 1);
    let param = params.item(0);
    assert!(param.ident().token().value == "a");
    match param.param_type() {
        TypeExpr::Ident(t) => assert!(t.token().value == "int"),
        _ => panic!("the parameter type should be the named type `int`"),
    }

    match f.return_type() {
        Some(TypeExpr::Ident(t)) => assert!(t.token().value == "int"),
        _ => panic!("the return type should be the named type `int`"),
    }

    let body = f.body().expect("the function should have a body");
    let stmts = body.body();
    assert_eq!(stmts.count(), 1);
    match stmts.item(0) {
        Stmt::ExprStmt(s) => match s.expr() {
            Expr::ReturnExpr(r) => match r.value() {
                Some(Expr::Ident(t)) => assert!(t.token().value == "a"),
                _ => panic!("the returned value should be the identifier `a`"),
            },
            _ => panic!("the statement should be the return expression"),
        },
        _ => panic!("the body should hold one expression statement"),
    }
}
