use haze::ast::{NodeAttr, NodeType};
use haze::errors::ParseErrorKind;
use haze::parser::Parser;
use haze::token::Tag;
use haze::views::{StructDecl, TopDeclList, TopLevelDecl, TypeExpr};

#[test]
fn recovery_is_bounded_to_the_bad_field() {
    // One malformed field: the struct still finishes with exactly the
    // remaining valid field, at least one diagnostic is reported, and
    // parsing resumes at the next top-level construct.
    let mut parser = Parser::new(
        "struct S { : bool, ready: bool }
fn f() { return 1; }
",
    );
    let tree = parser.parse();
    assert!(!parser.errors.is_empty());

    let decls = TopDeclList::cast(&tree);
    assert_eq!(decls.count(), 2);

    let s: StructDecl = match decls.item(0) {
        TopLevelDecl::Struct(s) => s,
        _ => panic!("expected the struct declaration"),
    };
    assert!(s.name().token().value == "S");
    assert_eq!(s.fields().count(), 1);
    let field = s.fields().item(0);
    assert!(field.name().token().value == "ready");
    match field.field_type() {
        TypeExpr::Ident(t) => assert!(t.token().value == "bool"),
        _ => panic!("expected a plain named type"),
    }

    match decls.item(1) {
        TopLevelDecl::Fn(f) => assert!(f.name().token().value == "f"),
        _ => panic!("expected the function declaration"),
    }
}

#[test]
fn unparseable_input_still_yields_a_tree() {
    let mut parser = Parser::new(") ) )");
    let tree = parser.parse();
    assert_eq!(tree.kind.0, NodeType::TopDeclList);
    assert!(tree.children.is_none());
    assert!(!parser.errors.is_empty());
}

#[test]
fn missing_semicolon_reports_and_resumes() {
    let mut parser = Parser::new("fn f() { let a = 1 let b = 2; }");
    let _tree = parser.parse();
    assert!(parser.errors.iter().any(|e| e.kind == ParseErrorKind::ExpectedSemi));
}

#[test]
fn malformed_import_path() {
    let mut parser = Parser::new("import a..b;");
    let _tree = parser.parse();
    assert!(parser.errors.iter().any(|e| e.kind == ParseErrorKind::MalformedImportPath));
}

#[test]
fn import_path_segments() {
    let mut parser = Parser::new("import alpha.beta.gamma;");
    let tree = parser.parse();
    assert!(parser.errors.is_empty());
    let decls = TopDeclList::cast(&tree);
    assert_eq!(decls.count(), 1);
    match decls.item(0) {
        TopLevelDecl::Import(path) => {
            assert_eq!(path.count(), 3);
            assert!(path.item(0).token().value == "alpha");
            assert!(path.item(1).token().value == "beta");
            assert!(path.item(2).token().value == "gamma");
        },
        _ => panic!("expected the import declaration"),
    }
}

#[test]
fn missing_field_delimiter() {
    let mut parser = Parser::new("struct S { a: bool b: bool }");
    let _tree = parser.parse();
    assert!(parser.errors.iter().any(|e| e.kind == ParseErrorKind::MissingFieldDelimeter));
}

#[test]
fn array_delimiter_diagnostic() {
    let mut parser = Parser::new("fn f() { let a = [1; 2]; }");
    let _tree = parser.parse();
    assert!(parser.errors.iter().any(|e| e.kind == ParseErrorKind::ExpectedArrayDelimeter));
}

#[test]
fn incomplete_parameter_diagnostics() {
    // A missing colon in a parameter yields both the incompleteness
    // report and the expected-colon report: the driver reports context
    // before delegating.
    let mut parser = Parser::new("fn f(a, b: int) { }");
    let _tree = parser.parse();
    assert!(parser.errors.iter().any(|e| e.kind == ParseErrorKind::ParamIncomplete));
    assert!(parser.errors.iter().any(|e| e.kind == ParseErrorKind::ExpectedColon));
}

#[test]
fn expected_function_parameters() {
    let mut parser = Parser::new("fn f { }");
    let _tree = parser.parse();
    assert!(
        parser.errors.iter().any(|e| e.kind == ParseErrorKind::ExpectedFunctionParameters)
    );
}

#[test]
fn expected_type_diagnostic() {
    let mut parser = Parser::new("type T = 5;");
    let _tree = parser.parse();
    assert!(parser.errors.iter().any(|e| e.kind == ParseErrorKind::ExpectedType));
}

#[test]
fn expected_if_or_block_diagnostic() {
    let mut parser = Parser::new("fn f() { if a { } else 3; }");
    let _tree = parser.parse();
    assert!(parser.errors.iter().any(|e| e.kind == ParseErrorKind::ExpectedIfOrBlock));
}

#[test]
fn expected_token_diagnostic_carries_the_tag() {
    let mut parser = Parser::new("struct { a: bool }");
    let _tree = parser.parse();
    assert!(parser.errors.iter().any(|e| e.kind == ParseErrorKind::Expected(Tag::Ident)));
}

#[test]
fn unexpected_eof_diagnostic() {
    let mut parser = Parser::new("fn f() { let a = 1;");
    let _tree = parser.parse();
    assert!(parser.errors.iter().any(|e| e.kind == ParseErrorKind::UnexpectedEOF));
}

#[test]
fn expected_expr_or_semi_diagnostic() {
    let mut parser = Parser::new("fn f() { return");
    let _tree = parser.parse();
    assert!(parser.errors.iter().any(|e| e.kind == ParseErrorKind::ExpectedExprOrSemi));
}

#[test]
fn expected_rbrace_diagnostic() {
    let mut parser = Parser::new("fn f() { ");
    let _tree = parser.parse();
    assert!(parser.errors.iter().any(|e| e.kind == ParseErrorKind::ExpectedRBrace));
}

#[test]
fn diagnostics_carry_locations_in_order() {
    let mut parser = Parser::new("fn f() {\n let a = ? ;\n}");
    let _tree = parser.parse();
    assert!(!parser.errors.is_empty());
    // Diagnostics accumulate in source order; the bad token sits on
    // line 2.
    assert!(parser.errors[0].location.line == 2);
}

#[test]
fn node_attr_marks_degenerate_lists_only() {
    let mut parser = Parser::new("struct S { a: bool }");
    let tree = parser.parse();
    let decls = TopDeclList::cast(&tree);
    match decls.item(0) {
        TopLevelDecl::Struct(s) => {
            assert_eq!(s.fields().node().kind.1, NodeAttr::Valid);
        },
        _ => panic!("expected the struct declaration"),
    }
}
