use fast_struct::{make_optional, optional, parse_struct, render_struct, wrap_type};
use fast_struct::{Attribute, FieldDecl, GenError, Shape, StructDecl, Transform};

// What `optional` writes for `struct Foo { bar: String, baz: usize }`, as code.
struct Foo {
    bar: Option<String>,
    baz: Option<usize>,
}

// What `optional` writes for `struct Kept { #[except] bar: bool, baz: usize }`, as code.
struct Kept {
    bar: bool,
    baz: Option<usize>,
}

fn field(name: &str, ty: &str, is_excepted: bool) -> FieldDecl {
    FieldDecl { name: Some(name.to_string()), ty: ty.to_string(), vis: String::new(), is_excepted }
}

fn positional(ty: &str, vis: &str, is_excepted: bool) -> FieldDecl {
    FieldDecl { name: None, ty: ty.to_string(), vis: vis.to_string(), is_excepted }
}

fn attribute(name: &str) -> Attribute {
    Attribute { name: Some(name.to_string()), text: format!("# [{}]", name) }
}

fn decl(shape: Shape, fields: Vec<FieldDecl>) -> StructDecl {
    StructDecl { name: "Foo".to_string(), vis: String::new(), attributes: Vec::new(), fields, shape }
}

#[test]
fn optional_test() {
    let generated = optional("", "struct Foo { bar: String, baz: usize, }").unwrap();
    assert_eq!(generated, "struct Foo {\n    bar: Option<String>,\n    baz: Option<usize>\n}\n");

    let foo = Foo { bar: Some("Hello, world!".to_string()), baz: Some(1984) };

    assert_eq!(Some("Hello, world!".to_string()), foo.bar);
    assert_eq!(Some(1984), foo.baz);
}

#[test]
fn optional_fields_may_be_absent() {
    let foo = Foo { bar: None, baz: None };
    assert_eq!(foo.bar, None);
    assert_eq!(foo.baz, None);
}

#[test]
fn optional_keeps_excepted_type() {
    let generated = optional("", "struct Kept { #[except] bar: bool, baz: usize }").unwrap();
    assert_eq!(generated, "struct Kept {\n    bar: bool,\n    baz: Option<usize>\n}\n");
    let parsed = syn::parse_str::<syn::ItemStruct>(&generated).unwrap();
    let expected =
        syn::parse_str::<syn::ItemStruct>("struct Kept { bar: bool, baz: Option<usize> }").unwrap();
    assert_eq!(parsed, expected);

    let kept = Kept { bar: true, baz: None };
    assert!(kept.bar);
    assert_eq!(kept.baz, None);
}

#[test]
fn optional_documented_example() {
    let generated = optional(
        "",
        "pub struct Foo { #[except] bar: bool, baz: usize, qux: String, quux: Vec<String>, }",
    )
    .unwrap();
    let parsed = syn::parse_str::<syn::ItemStruct>(&generated).unwrap();
    let expected = syn::parse_str::<syn::ItemStruct>(
        "pub struct Foo { bar: bool, baz: Option<usize>, qux: Option<String>, quux: Option<Vec<String>> }",
    )
    .unwrap();
    assert_eq!(parsed, expected);
}

#[test]
fn make_optional_named_fields() {
    let mut input = decl(
        Shape::NamedFields,
        vec![field("bar", "bool", true), field("baz", "usize", false)],
    );
    input.vis = "pub".to_string();
    input.fields[1].vis = "pub (crate)".to_string();
    let made = make_optional(&input).unwrap();
    let mut expected = decl(
        Shape::NamedFields,
        vec![field("bar", "bool", false), field("baz", "Option<usize>", false)],
    );
    expected.vis = "pub".to_string();
    expected.fields[1].vis = "pub (crate)".to_string();
    assert_eq!(made, expected);
}

#[test]
fn make_optional_unnamed_wraps_every_field() {
    let input = decl(
        Shape::UnnamedFields,
        vec![positional("u8", "pub", false), positional("String", "", true), positional("u8", "", false)],
    );
    let made = make_optional(&input).unwrap();
    let expected = decl(
        Shape::UnnamedFields,
        vec![
            positional("Option<u8>", "", false),
            positional("Option<String>", "", false),
            positional("Option<u8>", "", false),
        ],
    );
    assert_eq!(made, expected);
}

#[test]
fn optional_unnamed_text() {
    assert_eq!(
        optional("", "pub struct P(pub u8, #[except] String);").unwrap(),
        "pub struct P(Option<u8>, Option<String>);\n"
    );
    assert_eq!(optional("", "struct One(u8);").unwrap(), "struct One(Option<u8>);\n");
}

#[test]
fn optional_wraps_an_optional_again() {
    assert_eq!(
        optional("", "struct Foo { a: Option<u8> }").unwrap(),
        "struct Foo {\n    a: Option<Option < u8 >>\n}\n"
    );
    assert_eq!(wrap_type(&"Option<u8>".to_string()), "Option<Option<u8>>");
    assert_eq!(wrap_type(&String::new()), "Option<>");
}

#[test]
fn optional_no_fields_fails() {
    let expected =
        GenError::UnsupportedShape { transform: Transform::Optional, shape: Shape::NoFields };
    assert_eq!(optional("", "struct U;"), Err(expected.clone()));
    assert_eq!(optional("", "#[optional] pub struct U;"), Err(expected.clone()));
    assert_eq!(make_optional(&decl(Shape::NoFields, vec![])), Err(expected.clone()));
    assert_eq!(make_optional(&decl(Shape::NoFields, vec![field("a", "u8", false)])), Err(expected));
}

#[test]
fn optional_empty_lists_fail() {
    let expected =
        GenError::UnsupportedShape { transform: Transform::Optional, shape: Shape::NoFields };
    assert_eq!(optional("", "struct Foo {}"), Err(expected.clone()));
    assert_eq!(optional("", "struct E();"), Err(expected.clone()));
    assert_eq!(optional("", "#[derive(Debug)] pub struct E { }"), Err(expected.clone()));
    assert_eq!(make_optional(&decl(Shape::NamedFields, vec![])), Err(expected.clone()));
    assert_eq!(make_optional(&decl(Shape::UnnamedFields, vec![])), Err(expected));
}

#[test]
fn optional_never_emits_an_empty_declaration() {
    for source in ["struct A;", "struct A {}", "struct A();", "pub struct A { }", "struct A ( ) ;"] {
        assert!(optional("", source).is_err());
    }
    for source in ["struct A { a: u8 }", "struct A(u8);"] {
        let text = optional("", source).unwrap();
        let back = parse_struct(&text).unwrap();
        assert_eq!(back.fields.len(), 1);
    }
}

#[test]
fn optional_reports_first_field_without_name() {
    let mut input = decl(
        Shape::NamedFields,
        vec![field("a", "u8", false), field("b", "u8", false), field("c", "u8", false)],
    );
    input.fields[2].name = None;
    assert_eq!(make_optional(&input), Err(GenError::MalformedField { index: 2 }));
}

#[test]
fn optional_strips_the_invoking_annotation() {
    let generated = optional(
        "",
        "#[derive(Debug)] #[optional] #[allow(dead_code)] #[optional] pub struct Foo { a: u8 }",
    )
    .unwrap();
    assert_eq!(
        generated,
        "# [derive (Debug)]\n# [allow (dead_code)]\npub struct Foo {\n    a: Option<u8>\n}\n"
    );
}

#[test]
fn make_optional_keeps_other_annotations_in_order() {
    let mut input = decl(Shape::NamedFields, vec![field("a", "u8", false)]);
    input.attributes = vec![
        attribute("optional"),
        attribute("first"),
        attribute("optional"),
        attribute("second"),
        Attribute { name: None, text: "# [some :: optional]".to_string() },
        attribute("Optional"),
        attribute("third"),
    ];
    let made = make_optional(&input).unwrap();
    assert_eq!(
        made.attributes,
        vec![
            attribute("first"),
            attribute("second"),
            Attribute { name: None, text: "# [some :: optional]".to_string() },
            attribute("Optional"),
            attribute("third"),
        ]
    );
    let again = make_optional(&made).unwrap();
    assert_eq!(again.attributes, made.attributes);
}

#[test]
fn optional_consumes_the_marker() {
    let generated = optional("", "struct Foo { #[except] a: u8, #[except] #[doc = \"x\"] b: u8 }")
        .unwrap();
    assert!(!generated.contains("except"));
    let parsed = parse_struct(&generated).unwrap();
    assert!(parsed.fields.iter().all(|f| !f.is_excepted));
}

#[test]
fn optional_ignores_its_arguments() {
    let source = "struct Foo { a: u8 }";
    assert_eq!(optional("anything at all", source), optional("", source));
}

#[test]
fn optional_rejects_what_is_no_struct() {
    match optional("", "struct") {
        Err(GenError::Syntax { message }) => assert!(!message.is_empty()),
        other => panic!("unexpected {:?}", other),
    }
}

#[test]
fn optional_output_parses_back_to_what_was_made() {
    let source = "#[derive(Clone)] pub(crate) struct Foo { pub a: Vec<u8>, #[except] b: bool }";
    let made = make_optional(&parse_struct(source).unwrap()).unwrap();
    let text = optional("", source).unwrap();
    assert_eq!(render_struct(&made), Ok(text.clone()));
    let back = parse_struct(&text).unwrap();
    assert_eq!(back.name, made.name);
    assert_eq!(back.vis, made.vis);
    assert_eq!(back.shape, made.shape);
    assert_eq!(back.attributes, made.attributes);
    assert_eq!(back.fields.len(), made.fields.len());
    assert_eq!(back.fields[1], made.fields[1]);
}
