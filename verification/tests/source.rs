use fast_struct::{field_attributes, parse_struct, read_item};
use fast_struct::{Attribute, FieldDecl, GenError, Shape, StructDecl};

#[test]
fn parse_struct_reads_every_part() {
    let source = "#[derive(Debug)] #[serde::rename(x)] pub(crate) struct Foo { #[except] bar: bool, pub baz: Vec<String>, #[doc = \"d\"] qux: u8 }";
    let expected = StructDecl {
        name: "Foo".to_string(),
        vis: "pub (crate)".to_string(),
        attributes: vec![
            Attribute { name: Some("derive".to_string()), text: "# [derive (Debug)]".to_string() },
            Attribute { name: None, text: "# [serde :: rename (x)]".to_string() },
        ],
        fields: vec![
            FieldDecl {
                name: Some("bar".to_string()),
                ty: "bool".to_string(),
                vis: String::new(),
                is_excepted: true,
            },
            FieldDecl {
                name: Some("baz".to_string()),
                ty: "Vec < String >".to_string(),
                vis: "pub".to_string(),
                is_excepted: false,
            },
            FieldDecl {
                name: Some("qux".to_string()),
                ty: "u8".to_string(),
                vis: String::new(),
                is_excepted: false,
            },
        ],
        shape: Shape::NamedFields,
    };
    assert_eq!(parse_struct(source), Ok(expected));
}

#[test]
fn parse_struct_shapes() {
    assert_eq!(parse_struct("struct A { x: u8 }").unwrap().shape, Shape::NamedFields);
    assert_eq!(parse_struct("struct A {}").unwrap().shape, Shape::NamedFields);
    assert_eq!(parse_struct("struct A(u8);").unwrap().shape, Shape::UnnamedFields);
    assert_eq!(parse_struct("struct A();").unwrap().shape, Shape::UnnamedFields);
    assert_eq!(parse_struct("struct A;").unwrap().shape, Shape::NoFields);
    assert_eq!(parse_struct("struct A;").unwrap().fields, vec![]);
}

#[test]
fn parse_struct_positional_fields() {
    let parsed = parse_struct("pub struct P(pub u8, #[except] (u8, u16));").unwrap();
    assert_eq!(parsed.name, "P");
    assert_eq!(parsed.vis, "pub");
    assert_eq!(
        parsed.fields,
        vec![
            FieldDecl {
                name: None,
                ty: "u8".to_string(),
                vis: "pub".to_string(),
                is_excepted: false,
            },
            FieldDecl {
                name: None,
                ty: "(u8 , u16)".to_string(),
                vis: String::new(),
                is_excepted: true,
            },
        ]
    );
}

#[test]
fn parse_struct_marker_is_case_sensitive_and_exact() {
    let parsed = parse_struct(
        "struct Foo { #[Except] a: u8, #[excepted] b: u8, #[my::except] c: u8, #[except(x)] d: u8, #[doc = \"except\"] e: u8, #[allow(unused)] #[except] f: u8 }",
    )
    .unwrap();
    let flags: Vec<bool> = parsed.fields.iter().map(|f| f.is_excepted).collect();
    assert_eq!(flags, vec![false, false, false, true, false, true]);
}

#[test]
fn parse_struct_failure_carries_the_message() {
    assert_eq!(
        parse_struct("enum Foo { A }"),
        Err(GenError::Syntax { message: "expected `struct`".to_string() })
    );
    assert!(matches!(parse_struct(""), Err(GenError::Syntax { .. })));
    assert!(matches!(parse_struct("struct A; struct B;"), Err(GenError::Syntax { .. })));
    assert!(matches!(parse_struct("struct \"unterminated"), Err(GenError::Syntax { .. })));
}

#[test]
fn read_item_agrees_with_parse_struct() {
    let source = "#[a] struct Foo { #[except] x: u8, y: u16 }";
    let item = syn::parse_str::<syn::ItemStruct>(source).unwrap();
    assert_eq!(Ok(read_item(&item)), parse_struct(source));
}

#[test]
fn field_attributes_by_position() {
    let item = syn::parse_str::<syn::ItemStruct>(
        "struct Foo { #[except] #[serde(skip)] x: u8, y: u16, #[a::b] z: u8 }",
    )
    .unwrap();
    assert_eq!(
        field_attributes(&item, 0),
        Some(vec![
            Attribute { name: Some("except".to_string()), text: "# [except]".to_string() },
            Attribute { name: Some("serde".to_string()), text: "# [serde (skip)]".to_string() },
        ])
    );
    assert_eq!(field_attributes(&item, 1), Some(vec![]));
    assert_eq!(
        field_attributes(&item, 2),
        Some(vec![Attribute { name: None, text: "# [a :: b]".to_string() }])
    );
    assert_eq!(field_attributes(&item, 3), None);
}

#[test]
fn parse_struct_keeps_field_order() {
    let parsed = parse_struct("struct Foo { z: u8, a: u8, m: u8 }").unwrap();
    let names: Vec<Option<String>> = parsed.fields.iter().map(|f| f.name.clone()).collect();
    assert_eq!(
        names,
        vec![Some("z".to_string()), Some("a".to_string()), Some("m".to_string())]
    );
}
