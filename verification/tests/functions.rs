use haze::parser::Parser;
use haze::views::{FnDef, TopDeclList, TopLevelDecl};

#[test]
fn test_fn() {
    let mut parser = Parser::new(
        r#"
fn do_something(num: int, num2: int) -> int {
    let name = "Help me";
    let j: int = 1 + bring(3);

    let k = .Foo { bar: (3), foo: 2342 - 24843 };

    if j > 6 {
        name = "Help you";
    } else { name = "uoypleh"; }

    let j = (if k.bar > 2 { return 45; } else { return 54; })
        + bring(3) - k.foo;

    j = 34;
    return num + 2;
}

fn bring(num: int) {
    return num - 3;
}

"#,
    );

    let result = parser.function_def();
    if let Ok(node) = &result {
        println!("{:?}", node);
    }
    parser.errors.iter().for_each(|err| println!("{:?}", err));
}

#[test]
fn test_fn_set() {
    let mut parser = Parser::new(
        r#"
fn binary_search(list: [int; 20], target: int) -> int {
    let low = 0;
    let high = 20 - 1;
    let mid = (low + high) / 2;

    while low < high + 1 {
        let mid_val = list[mid];
        if mid_val == target { return mid; }
        else if mid_val < target { low = mid + 1; }
        else { high = mid - 1; }

        mid = (low + high) / 2;
    }
    return -1;
}

fn log_message(msg: string, severity: uint) {

    let output = "";
    if severity > 2 {
        output = append("Error: ", msg);
    } else {
        output = append("Warning: ", msg);
    }
    println(output);
}

fn main() {
    println("Hello, world!");
}

fn (bytes: [u8; 10], num: int) -> bool {}

fn (:[u8; 10], num: int) -> bool {}

fn foo(a, b, c, d) {
    println(a + b + c + d);
}

"#,
    );

    let result = parser.parse();
    println!("{:?}", result);

    for err in parser.errors.iter() {
        println!("{:?}", err);
    }
}

#[test]
fn fn_def_views() {
    let mut parser = Parser::new("fn area(radius: int) -> int { return radius; }");
    let tree = parser.parse();
    assert!(parser.errors.is_empty());
    let decls = TopDeclList::cast(&tree);
    assert_eq!(decls.count(), 1);
    let f: FnDef = match decls.item(0) {
        TopLevelDecl::Fn(f) => f,
        _ => panic!("expected a function definition"),
    };
    assert!(f.name().token().value == "area");
    assert_eq!(f.params().count(), 1);
    assert!(f.params().item(0).ident().token().value == "radius");
    assert!(f.body().is_some());
    assert!(f.return_type().is_some());
}
