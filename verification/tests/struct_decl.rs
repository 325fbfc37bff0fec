use haze::parser::Parser;
use haze::token::Tag;
use haze::views::{StructDecl, TypeExpr};

#[test]
fn test_struct_decl_valid() {
    let mut parser = Parser::new(
        "
struct Flags {
    visible: bool,
    ready: bool,
}
",
    );

    let result = parser.struct_decl();
    assert!(result.is_ok());
    let node = result.unwrap();

    let result = StructDecl::cast(&node);

    assert!(result.name().token().value == "Flags");
    let fields = result.fields();
    assert_eq!(fields.count(), 2);
    let first = fields.item(0);
    assert!(first.name().token().value == "visible");
    match first.field_type() {
        TypeExpr::Ident(t) => assert!(t.token().value == "bool"),
        _ => panic!("expected a plain named type"),
    }
    let second = fields.item(1);
    assert!(second.name().token().value == "ready");
    match second.field_type() {
        TypeExpr::Ident(t) => assert!(t.token().value == "bool"),
        _ => panic!("expected a plain named type"),
    }
}

#[test]
fn test_struct_parse_error() {
    let mut parser = Parser::new("struct Flags { : bool, ready: bool }");

    let result = parser.struct_decl();
    parser.errors.iter().for_each(|err| println!("{:?}", err));
    // One malformed field is locally contained: the declaration still
    // finishes, holding the remaining valid field.
    assert!(result.is_ok());
}

#[test]
fn struct_decl_empty_field_list_marked_invalid() {
    let mut parser = Parser::new("struct Empty { }");
    let result = parser.struct_decl();
    assert!(result.is_ok());
    let node = result.unwrap();
    let view = StructDecl::cast(&node);
    // A struct's field list is a genuinely required list: zero
    // elements mark it as a degenerate parse.
    assert!(view.fields().node().is_invalid());
    assert_eq!(view.fields().count(), 0);
}

#[test]
fn enum_decl_variants() {
    let mut parser = Parser::new("enum Shade { Light, Dark(int) }");
    assert_eq!(parser.peek().unwrap().tag, Tag::Enum);
    let result = parser.enum_decl();
    assert!(result.is_ok());
    let node = result.unwrap();
    let view = haze::views::EnumDecl::cast(&node);
    assert!(view.name().token().value == "Shade");
    let variants = view.variants();
    assert_eq!(variants.count(), 2);
    assert!(variants.item(0).tag().token().value == "Light");
    assert!(variants.item(0).variant_type().token().is_empty());
    assert!(variants.item(1).tag().token().value == "Dark");
    assert!(variants.item(1).variant_type().token().value == "int");
}
