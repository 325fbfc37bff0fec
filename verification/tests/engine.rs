use haze::ast::NodeChild;
use haze::errors::ParseErrorKind;
use haze::parser::Parser;
use haze::token::Tag;
use haze::views::Expr;

/// Parses one expression from the source and casts it as a view.
fn parse_expr(source: &str) -> (NodeChild, Vec<haze::errors::ParseError>) {
    let mut parser = Parser::new(source);
    let child = parser.expr().expect("the expression should parse");
    (child, parser.errors)
}

/// The operand names of an infix node `(left op right)` where both
/// operands are identifier leaves, as `(left, op, right)` text.
fn leaf_infix(e: &Expr) -> (String, String, String) {
    match e {
        Expr::Infix(v) => {
            let l = match v.left() {
                Expr::Ident(t) => t.token().value.clone(),
                _ => panic!("expected an identifier on the left"),
            };
            let r = match v.right() {
                Expr::Ident(t) => t.token().value.clone(),
                _ => panic!("expected an identifier on the right"),
            };
            (l, v.op().value.clone(), r)
        },
        _ => panic!("expected an infix node"),
    }
}

#[test]
fn subtraction_associates_left() {
    // `a - b - c` groups as `(a - b) - c`.
    let (child, errors) = parse_expr("a - b - c;");
    assert!(errors.is_empty());
    let e = Expr::cast(&child);
    match &e {
        Expr::Infix(outer) => {
            assert_eq!(outer.op().value, "-");
            match outer.left() {
                Expr::Infix(_) => {},
                _ => panic!("the left operand should be the inner subtraction"),
            }
            let inner = outer.left();
            assert_eq!(leaf_infix(&inner), ("a".to_string(), "-".to_string(), "b".to_string()));
            match outer.right() {
                Expr::Ident(t) => assert_eq!(t.token().value, "c"),
                _ => panic!("the right operand should be `c`"),
            }
        },
        _ => panic!("expected an infix node"),
    }
}

#[test]
fn multiplication_binds_tighter_than_addition() {
    // `a + b * c` groups as `a + (b * c)`.
    let (child, errors) = parse_expr("a + b * c;");
    assert!(errors.is_empty());
    let e = Expr::cast(&child);
    match &e {
        Expr::Infix(outer) => {
            assert_eq!(outer.op().value, "+");
            match outer.left() {
                Expr::Ident(t) => assert_eq!(t.token().value, "a"),
                _ => panic!("the left operand should be `a`"),
            }
            let inner = outer.right();
            assert_eq!(leaf_infix(&inner), ("b".to_string(), "*".to_string(), "c".to_string()));
        },
        _ => panic!("expected an infix node"),
    }
}

#[test]
fn comparisons_associate_left() {
    // `a < b == c` groups as `(a < b) == c`: the comparison operators
    // share one precedence level and are left-associative.
    let (child, errors) = parse_expr("a < b == c;");
    assert!(errors.is_empty());
    let e = Expr::cast(&child);
    match &e {
        Expr::Infix(outer) => {
            assert_eq!(outer.op().value, "==");
            let inner = outer.left();
            assert_eq!(leaf_infix(&inner), ("a".to_string(), "<".to_string(), "b".to_string()));
            match outer.right() {
                Expr::Ident(t) => assert_eq!(t.token().value, "c"),
                _ => panic!("the right operand should be `c`"),
            }
        },
        _ => panic!("expected an infix node"),
    }
}

#[test]
fn block_as_condition_is_rejected() {
    // `if { } { }`: under the block restriction the leading `{` of the
    // condition is rejected with the dedicated diagnostic.
    let mut parser = Parser::new("if { } { }");
    parser.next(); // the `if` keyword, as the expression engine would
    let result = parser.if_expr();
    assert!(result.is_err());
    assert!(parser.errors.iter().any(|e| e.kind == ParseErrorKind::BlockExprDisallowed));
}

#[test]
fn parenthesized_condition_is_accepted() {
    // `if (a) { }`: parentheses bound the condition, so the ambiguity
    // cannot arise and no diagnostic is reported.
    let mut parser = Parser::new("if (a) { }");
    parser.next();
    let result = parser.if_expr();
    assert!(result.is_ok());
    assert!(parser.errors.is_empty());
}

#[test]
fn restriction_lifted_inside_parentheses() {
    // Inside explicit delimiters the restriction is lifted: a block
    // expression may open a parenthesized sub-expression.
    let mut parser = Parser::new("if ({ 1 + 2; }) { }");
    parser.next();
    let result = parser.if_expr();
    assert!(result.is_ok());
    assert!(parser.errors.is_empty());
}

#[test]
fn empty_call_and_array() {
    let (child, errors) = parse_expr("f();");
    assert!(errors.is_empty());
    match Expr::cast(&child) {
        Expr::CallExpr(c) => {
            assert_eq!(c.name().token().value, "f");
            assert_eq!(c.args().count(), 0);
        },
        _ => panic!("expected a call"),
    }

    let (child, errors) = parse_expr("[];");
    assert!(errors.is_empty());
    match Expr::cast(&child) {
        Expr::ArrayExpr(a) => assert_eq!(a.count(), 0),
        _ => panic!("expected an array"),
    }
}

#[test]
fn array_elements_stop_at_delimiters() {
    let (child, errors) = parse_expr("[1 + 2, x, f(3)];");
    assert!(errors.is_empty());
    match Expr::cast(&child) {
        Expr::ArrayExpr(a) => assert_eq!(a.count(), 3),
        _ => panic!("expected an array"),
    }
}

#[test]
fn expected_operator_diagnostic() {
    let mut parser = Parser::new("a ? b;");
    let result = parser.expr();
    assert!(result.is_err());
    assert!(parser.errors.iter().any(|e| e.kind == ParseErrorKind::ExpectedOperator));
}

#[test]
fn expected_expression_diagnostic() {
    let mut parser = Parser::new("* 3;");
    let result = parser.expr();
    assert!(result.is_err());
    assert!(parser.errors.iter().any(|e| e.kind == ParseErrorKind::ExpectedExpr));
}

#[test]
fn binding_power_table_values() {
    assert_eq!(haze::parser::infix_bp(Tag::Plus), (3, 4));
    assert_eq!(haze::parser::infix_bp(Tag::Minus), (3, 4));
    assert_eq!(haze::parser::infix_bp(Tag::Asterisk), (5, 6));
    assert_eq!(haze::parser::infix_bp(Tag::Slash), (5, 6));
    assert_eq!(haze::parser::infix_bp(Tag::EqualEqual), (1, 2));
    assert_eq!(haze::parser::infix_bp(Tag::Less), (1, 2));
    assert_eq!(haze::parser::prefix_bp(Tag::Minus).1, 7);
    assert_eq!(haze::parser::prefix_bp(Tag::Bang).1, 7);
}

#[test]
fn unexpected_eof_inside_expression() {
    // A lone atom at the end of the input: the engine reports exactly
    // one unexpected-end-of-input diagnostic and fails contained.
    let mut parser = Parser::new("a");
    let result = parser.expr();
    assert!(result.is_err());
    assert_eq!(parser.errors.len(), 1);
    assert_eq!(parser.errors[0].kind, ParseErrorKind::UnexpectedEOF);
}

#[test]
fn skip_until_rests_on_first_match() {
    let mut parser = Parser::new("a b ; c ; d");
    parser.skip_until(Tag::Semicolon);
    // Rests unconsumed on the first semicolon, not a later one.
    assert_eq!(parser.peek().unwrap().tag, Tag::Semicolon);
    assert_eq!(parser.pos, 2);
    assert!(parser.errors.is_empty());
}
