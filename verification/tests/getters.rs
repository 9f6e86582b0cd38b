use fast_struct::{accessors, auto_getters, render_accessors};
use fast_struct::{Accessor, FieldDecl, GenError, Shape, StructDecl, Transform};

// The block that `auto_getters` writes for `Foo`, as code.
struct Foo {
    bar: String,
    baz: i16,
}

impl Foo {
    pub fn bar(&self) -> &String {
        &self.bar
    }
    pub fn baz(&self) -> &i16 {
        &self.baz
    }
}

const FOO_ACCESSORS: &str = "impl Foo {\n    pub fn bar(&self) -> &String {\n        &self.bar\n    }\n    pub fn baz(&self) -> &i16 {\n        &self.baz\n    }\n}\n";

fn field(name: &str, ty: &str, is_excepted: bool) -> FieldDecl {
    FieldDecl { name: Some(name.to_string()), ty: ty.to_string(), vis: String::new(), is_excepted }
}

fn named(name: &str, fields: Vec<FieldDecl>) -> StructDecl {
    StructDecl {
        name: name.to_string(),
        vis: String::new(),
        attributes: Vec::new(),
        fields,
        shape: Shape::NamedFields,
    }
}

fn accessor(name: &str, ty: &str) -> Accessor {
    Accessor { name: name.to_string(), field: name.to_string(), ty: ty.to_string() }
}

#[test]
fn auto_getters_test() {
    let generated = auto_getters("struct Foo { bar: String, baz: i16, }").unwrap();
    assert_eq!(generated, FOO_ACCESSORS);

    let foo = Foo { bar: "Hello, world!".into(), baz: 1984 };

    assert_eq!("Hello, world!", foo.bar());
    assert_eq!(1984_i16, *foo.baz());
}

#[test]
fn auto_getters_output_is_an_impl_block() {
    let generated = auto_getters("struct Foo { bar: String, baz: i16 }").unwrap();
    let parsed = syn::parse_str::<syn::ItemImpl>(&generated).unwrap();
    let expected = syn::parse_str::<syn::ItemImpl>(
        "impl Foo { pub fn bar(&self) -> &String { &self.bar } pub fn baz(&self) -> &i16 { &self.baz } }",
    )
    .unwrap();
    assert_eq!(parsed, expected);
}

#[test]
fn accessors_one_per_field_in_order() {
    let decl = named("Foo", vec![field("bar", "String", false), field("baz", "i16", false)]);
    assert_eq!(accessors(&decl), Ok(vec![accessor("bar", "String"), accessor("baz", "i16")]));
}

#[test]
fn accessors_skip_excepted_fields() {
    let decl = named(
        "Foo",
        vec![
            field("a", "u8", false),
            field("b", "u16", true),
            field("c", "u32", false),
            field("d", "u64", true),
        ],
    );
    assert_eq!(accessors(&decl), Ok(vec![accessor("a", "u8"), accessor("c", "u32")]));
}

#[test]
fn accessors_all_excepted_gives_none() {
    let decl = named("Foo", vec![field("a", "u8", true)]);
    assert_eq!(accessors(&decl), Ok(vec![]));
    assert_eq!(auto_getters("struct Foo { #[except] a: u8 }").unwrap(), "impl Foo {\n}\n");
}

#[test]
fn accessors_refuse_empty_braces() {
    let expected =
        GenError::UnsupportedShape { transform: Transform::Accessors, shape: Shape::NoFields };
    assert_eq!(accessors(&named("Foo", vec![])), Err(expected.clone()));
    assert_eq!(auto_getters("struct Foo {}"), Err(expected.clone()));
    assert_eq!(auto_getters("struct Foo();"), Err(expected));
}

#[test]
fn accessors_go_by_the_shape_where_fields_stand() {
    let mut decl = named("Foo", vec![field("a", "u8", false)]);
    decl.shape = Shape::NoFields;
    assert_eq!(
        accessors(&decl),
        Err(GenError::UnsupportedShape { transform: Transform::Accessors, shape: Shape::NoFields })
    );
    assert_eq!(decl.effective_shape(), Shape::NoFields);
    decl.shape = Shape::NamedFields;
    assert_eq!(decl.effective_shape(), Shape::NamedFields);
    decl.fields.clear();
    assert_eq!(decl.effective_shape(), Shape::NoFields);
}

#[test]
fn auto_getters_keeps_a_raw_name() {
    let generated = auto_getters("struct Foo { r#type: u8 }").unwrap();
    assert_eq!(
        generated,
        "impl Foo {\n    pub fn r#type(&self) -> &u8 {\n        &self.r#type\n    }\n}\n"
    );
    assert!(syn::parse_str::<syn::ItemImpl>(&generated).is_ok());
}

#[test]
fn accessors_refuse_unnamed_fields() {
    let mut decl = named("P", vec![]);
    decl.shape = Shape::UnnamedFields;
    decl.fields.push(FieldDecl {
        name: None,
        ty: "u8".to_string(),
        vis: String::new(),
        is_excepted: false,
    });
    let expected =
        GenError::UnsupportedShape { transform: Transform::Accessors, shape: Shape::UnnamedFields };
    assert_eq!(accessors(&decl), Err(expected.clone()));
    assert_eq!(auto_getters("struct P(u8);"), Err(expected));
}

#[test]
fn accessors_refuse_no_fields() {
    let mut decl = named("U", vec![]);
    decl.shape = Shape::NoFields;
    let expected =
        GenError::UnsupportedShape { transform: Transform::Accessors, shape: Shape::NoFields };
    assert_eq!(accessors(&decl), Err(expected.clone()));
    assert_eq!(auto_getters("struct U;"), Err(expected));
}

#[test]
fn accessors_report_first_field_without_name() {
    let mut decl = named(
        "Foo",
        vec![field("a", "u8", false), field("b", "u8", true), field("c", "u8", false)],
    );
    decl.fields[1].name = None;
    decl.fields[2].name = None;
    assert_eq!(accessors(&decl), Err(GenError::MalformedField { index: 1 }));
}

#[test]
fn accessors_do_not_detect_colliding_names() {
    let generated = auto_getters("struct Foo { a: u8, a: u16 }").unwrap();
    assert_eq!(
        generated,
        "impl Foo {\n    pub fn a(&self) -> &u8 {\n        &self.a\n    }\n    pub fn a(&self) -> &u16 {\n        &self.a\n    }\n}\n"
    );
}

#[test]
fn auto_getters_honours_the_marker() {
    let generated = auto_getters("pub struct Foo { #[except] secret: String, pub shown: Vec<u8> }")
        .unwrap();
    assert_eq!(
        generated,
        "impl Foo {\n    pub fn shown(&self) -> &Vec < u8 > {\n        &self.shown\n    }\n}\n"
    );
}

#[test]
fn auto_getters_rejects_what_is_no_struct() {
    match auto_getters("enum Foo { A }") {
        Err(GenError::Syntax { message }) => assert_eq!(message, "expected `struct`"),
        other => panic!("unexpected {:?}", other),
    }
}

#[test]
fn auto_getters_is_deterministic() {
    let source = "struct Foo { a: u8, #[except] b: u8, c: Option<String> }";
    assert_eq!(auto_getters(source), auto_getters(source));
}

#[test]
fn render_accessors_exact_text() {
    let text = render_accessors(&"Point".to_string(), &vec![accessor("x", "f64")]);
    assert_eq!(text, "impl Point {\n    pub fn x(&self) -> &f64 {\n        &self.x\n    }\n}\n");
}

#[test]
fn render_accessors_reads_the_named_field() {
    let renamed = Accessor { name: "get_x".to_string(), field: "x".to_string(), ty: "u8".to_string() };
    let text = render_accessors(&"P".to_string(), &vec![renamed]);
    assert_eq!(text, "impl P {\n    pub fn get_x(&self) -> &u8 {\n        &self.x\n    }\n}\n");
}

#[test]
fn accessor_named_like_its_field_stands_beside_it() {
    let foo = Foo { bar: "both".to_string(), baz: 7 };
    assert_eq!(foo.bar, "both");
    assert_eq!(foo.bar(), "both");
    assert!(std::ptr::eq(&foo.baz, foo.baz()));
}
