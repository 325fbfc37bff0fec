use haze::parser::Parser;
use haze::views::{Expr, Stmt, TopDeclList, TopLevelDecl, TypeExpr};

#[test]
fn module_with_nested_declarations() {
    let mut parser = Parser::new("module geometry { fn area() { } struct P { x: int } }");
    let tree = parser.parse();
    assert!(parser.errors.is_empty());
    let decls = TopDeclList::cast(&tree);
    assert_eq!(decls.count(), 1);
    match decls.item(0) {
        TopLevelDecl::Mod(m) => {
            assert!(m.name().token().value == "geometry");
            let inner = m.decls();
            assert_eq!(inner.count(), 2);
            assert!(matches!(inner.item(0), TopLevelDecl::Fn(_)));
            assert!(matches!(inner.item(1), TopLevelDecl::Struct(_)));
        },
        _ => panic!("expected the module declaration"),
    }
}

#[test]
fn const_declaration() {
    let mut parser = Parser::new("const LIMIT: int = 3 + 4;");
    let tree = parser.parse();
    let decls = TopDeclList::cast(&tree);
    assert_eq!(decls.count(), 1);
    match decls.item(0) {
        TopLevelDecl::Const(c) => {
            assert!(c.name().token().value == "LIMIT");
            match c.const_type() {
                TypeExpr::Ident(t) => assert!(t.token().value == "int"),
                _ => panic!("expected a plain named type"),
            }
            assert!(matches!(c.value(), Expr::Infix(_)));
        },
        _ => panic!("expected the constant declaration"),
    }
}

#[test]
fn type_alias_declaration() {
    let mut parser = Parser::new("type Grid = [int; 9];");
    let tree = parser.parse();
    let decls = TopDeclList::cast(&tree);
    assert_eq!(decls.count(), 1);
    match decls.item(0) {
        TopLevelDecl::Type(t) => {
            assert!(t.name().token().value == "Grid");
            match t.type_expr() {
                TypeExpr::ArrayType(a) => {
                    match a.element_type() {
                        TypeExpr::Ident(e) => assert!(e.token().value == "int"),
                        _ => panic!("expected a plain element type"),
                    }
                    assert!(a.len().token().value == "9");
                },
                _ => panic!("expected an array type"),
            }
        },
        _ => panic!("expected the type alias"),
    }
}

#[test]
fn while_loop_and_assignment() {
    let mut parser = Parser::new("fn f() { while x < 3 { x = x + 1; } }");
    let tree = parser.parse();
    assert!(parser.errors.is_empty());
    let decls = TopDeclList::cast(&tree);
    let f = match decls.item(0) {
        TopLevelDecl::Fn(f) => f,
        _ => panic!("expected the function"),
    };
    let body = f.body().expect("the function should have a body");
    match body.body().item(0) {
        Stmt::ExprStmt(s) => match s.expr() {
            Expr::WhileExpr(w) => {
                assert!(matches!(w.condition(), Expr::Infix(_)));
                match w.consequence().body().item(0) {
                    Stmt::ExprStmt(inner) => {
                        assert!(matches!(inner.expr(), Expr::AssignExpr(_)));
                    },
                    _ => panic!("expected the assignment statement"),
                }
            },
            _ => panic!("expected the while expression"),
        },
        _ => panic!("expected an expression statement"),
    }
}

#[test]
fn index_and_field_access() {
    let mut parser = Parser::new("fn f() { let a = xs[2]; let b = p.x; }");
    let tree = parser.parse();
    assert!(parser.errors.is_empty());
    let decls = TopDeclList::cast(&tree);
    let f = match decls.item(0) {
        TopLevelDecl::Fn(f) => f,
        _ => panic!("expected the function"),
    };
    let body = f.body().expect("the function should have a body");
    let stmts = body.body();
    match stmts.item(0) {
        Stmt::VarDecl(v) => match v.value() {
            Some(Expr::IndexExpr(ix)) => {
                assert!(matches!(ix.container(), Expr::Ident(_)));
                match ix.index() {
                    Expr::Int(n) => assert!(n.token().value == "2"),
                    _ => panic!("expected the numeric index"),
                }
            },
            _ => panic!("expected the index expression"),
        },
        _ => panic!("expected the first declaration"),
    }
    match stmts.item(1) {
        Stmt::VarDecl(v) => match v.value() {
            Some(Expr::FieldAccessExpr(fa)) => {
                assert!(fa.field_name().token().value == "x");
            },
            _ => panic!("expected the field access"),
        },
        _ => panic!("expected the second declaration"),
    }
}

#[test]
fn struct_literal_expression() {
    let mut parser = Parser::new("fn f() { let k = .Point { x: 1, y: 2 }; }");
    let tree = parser.parse();
    assert!(parser.errors.is_empty());
    let decls = TopDeclList::cast(&tree);
    let f = match decls.item(0) {
        TopLevelDecl::Fn(f) => f,
        _ => panic!("expected the function"),
    };
    let body = f.body().expect("the function should have a body");
    match body.body().item(0) {
        Stmt::VarDecl(v) => match v.value() {
            Some(Expr::StructExpr(s)) => {
                assert!(s.name().token().value == "Point");
                let fields = s.fields();
                assert_eq!(fields.count(), 2);
                assert!(fields.item(0).name().token().value == "x");
                assert!(fields.item(1).name().token().value == "y");
            },
            _ => panic!("expected the struct literal"),
        },
        _ => panic!("expected the declaration"),
    }
}

#[test]
fn var_decl_optional_slots() {
    let mut parser = Parser::new("fn f() { let a; let b: int; let c = 1; }");
    let _tree = parser.parse();
    // `let a;` misses its `=`: reported, with the placeholder standing
    // in for the value, and parsing goes on.
    let mut parser2 = Parser::new("fn f() { let b: int = 2; }");
    let tree2 = parser2.parse();
    assert!(parser2.errors.is_empty());
    let decls = TopDeclList::cast(&tree2);
    let f = match decls.item(0) {
        TopLevelDecl::Fn(f) => f,
        _ => panic!("expected the function"),
    };
    let body = f.body().expect("the function should have a body");
    match body.body().item(0) {
        Stmt::VarDecl(v) => {
            assert!(v.name().token().value == "b");
            assert!(v.var_type().is_some());
            assert!(v.value().is_some());
        },
        _ => panic!("expected the declaration"),
    }
}

#[test]
fn continue_statement_with_and_without_label() {
    let mut parser = Parser::new("fn f() { while a { continue; continue again; } }");
    let tree = parser.parse();
    assert!(parser.errors.is_empty());
    let decls = TopDeclList::cast(&tree);
    let f = match decls.item(0) {
        TopLevelDecl::Fn(f) => f,
        _ => panic!("expected the function"),
    };
    let body = f.body().expect("the function should have a body");
    let w = match body.body().item(0) {
        Stmt::ExprStmt(s) => match s.expr() {
            Expr::WhileExpr(w) => w,
            _ => panic!("expected the loop"),
        },
        _ => panic!("expected an expression statement"),
    };
    let stmts = w.consequence().body();
    assert_eq!(stmts.count(), 2);
    match stmts.item(0) {
        Stmt::ExprStmt(s) => match s.expr() {
            Expr::ContinueExpr(c) => assert!(c.label().token().is_empty()),
            _ => panic!("expected the bare continue"),
        },
        _ => panic!("expected an expression statement"),
    }
    match stmts.item(1) {
        Stmt::ExprStmt(s) => match s.expr() {
            Expr::ContinueExpr(c) => assert!(c.label().token().value == "again"),
            _ => panic!("expected the labelled continue"),
        },
        _ => panic!("expected an expression statement"),
    }
}
