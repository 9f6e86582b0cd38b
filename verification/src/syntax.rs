//! The boundary with the parser.
//!
//! Source text is parsed by `syn`, and the parsed declaration is read out
//! piece by piece as plain values: identifiers are printed with their own
//! `to_string`, and visibilities, types and annotations as the token stream
//! that `quote::ToTokens` gives for them.
//!
//! Nothing in this file is proved. The functions are trusted to do what their
//! contracts say: that parsing depends on the text alone, that the parser
//! names the fields as the field list is written, and that each reader
//! returns the part of the declaration that [`item_contents`] names.
//! The dependencies are built without their `proc-macro` feature, so tokens
//! are always lexed and printed by `proc-macro2` itself, in the same way in
//! every process.

use crate::decl::{AttributeView, Shape};
use quote::ToTokens;
use vstd::prelude::*;

verus! {

/// `syn::ItemStruct`, a parsed struct declaration. It is carried from the
/// parser to the readers below and never looked into.
#[verifier::external_type_specification]
#[verifier::external_body]
pub struct ExItemStruct(syn::ItemStruct);

/// `syn::Error`, the parser's error. Only its message is read.
#[verifier::external_type_specification]
#[verifier::external_body]
pub struct ExSynError(syn::Error);

/// One field of a parsed declaration, before its annotations are classified.
pub struct ParsedField {
    pub name: Option<Seq<char>>,
    pub ty: Seq<char>,
    pub vis: Seq<char>,
    pub attributes: Seq<AttributeView>,
}

/// A parsed declaration, before the annotations of its fields are classified.
pub struct ParsedStruct {
    pub name: Seq<char>,
    pub vis: Seq<char>,
    pub attributes: Seq<AttributeView>,
    pub fields: Seq<ParsedField>,
    pub shape: Shape,
}

/// Whether the names of the fields agree with the way the field list is
/// written: every field between braces has a name, no field between
/// parentheses has one, and a declaration without a list has no fields.
pub open spec fn names_agree(parsed: ParsedStruct) -> bool {
    match parsed.shape {
        Shape::NamedFields => forall|i: int|
            0 <= i < parsed.fields.len() ==> (#[trigger] parsed.fields[i]).name is Some,
        Shape::UnnamedFields => forall|i: int|
            0 <= i < parsed.fields.len() ==> (#[trigger] parsed.fields[i]).name is None,
        Shape::NoFields => parsed.fields.len() == 0,
    }
}

/// What `syn::parse_str::<syn::ItemStruct>` makes of a source text: the
/// declaration it holds, or the message of the parser's error.
pub uninterp spec fn parse_outcome(source: Seq<char>) -> Result<ParsedStruct, Seq<char>>;

/// What a `syn::ItemStruct` holds of the parts the generators read: its
/// `ident`, `vis`, `attrs` and `fields`, the latter with their own `ident`,
/// `ty`, `vis` and `attrs`. Generics and the tokens themselves are not part
/// of it.
pub uninterp spec fn item_contents(item: syn::ItemStruct) -> ParsedStruct;

/// The message that a `syn::Error` displays.
pub uninterp spec fn error_text(error: syn::Error) -> Seq<char>;

/// Calls `syn::parse_str::<syn::ItemStruct>`, which lexes the text and
/// parses all of it as one struct declaration. Trusted: the outcome, the
/// declaration read or the error's message, is a function of the text;
/// and in a declaration that the parser gives, the names agree with the
/// field list, since it reads each field between braces with
/// `Field::parse_named`, which sets the `ident`, each field between
/// parentheses with `Field::parse_unnamed`, which leaves it unset, and
/// gives `Fields::Unit` where no list is written.
#[verifier::external_body]
pub(crate) fn parse_item(source: &str) -> (r: Result<syn::ItemStruct, syn::Error>)
    ensures
        r matches Ok(item) ==> names_agree(item_contents(item)),
        match r {
            Ok(item) => parse_outcome(source@) == Ok::<ParsedStruct, Seq<char>>(
                item_contents(item),
            ),
            Err(error) => parse_outcome(source@) == Err::<ParsedStruct, Seq<char>>(
                error_text(error),
            ),
        },
{
    syn::parse_str::<syn::ItemStruct>(source)
}

/// Calls `to_string` on a `syn::Error`, which displays the message of the
/// first error it holds. Trusted: that text is [`error_text`].
#[verifier::external_body]
pub(crate) fn error_message(error: &syn::Error) -> (r: String)
    ensures
        r@ == error_text(*error),
{
    error.to_string()
}

/// Prints the declaration's `ident` with `to_string`. Trusted: that text is
/// the name in [`item_contents`].
#[verifier::external_body]
pub(crate) fn item_name(item: &syn::ItemStruct) -> (r: String)
    ensures
        r@ == item_contents(*item).name,
{
    item.ident.to_string()
}

/// Tells the variants of the declaration's `syn::Fields` apart: `Named`,
/// `Unnamed` and `Unit` in this order. Trusted: that is the shape in
/// [`item_contents`].
#[verifier::external_body]
pub(crate) fn item_shape(item: &syn::ItemStruct) -> (r: Shape)
    ensures
        r == item_contents(*item).shape,
{
    match &item.fields {
        syn::Fields::Named(_) => Shape::NamedFields,
        syn::Fields::Unnamed(_) => Shape::UnnamedFields,
        syn::Fields::Unit => Shape::NoFields,
    }
}

/// Calls `quote::ToTokens::to_token_stream` on the declaration's `vis` and
/// prints the tokens; nothing is printed for an inherited visibility.
/// Trusted: that text is the visibility in [`item_contents`].
#[verifier::external_body]
pub(crate) fn item_vis(item: &syn::ItemStruct) -> (r: String)
    ensures
        r@ == item_contents(*item).vis,
{
    item.vis.to_token_stream().to_string()
}

/// The length of the declaration's `attrs`. Trusted: [`item_contents`]
/// holds as many annotations.
#[verifier::external_body]
pub(crate) fn item_attribute_count(item: &syn::ItemStruct) -> (r: usize)
    ensures
        r == item_contents(*item).attributes.len(),
{
    item.attrs.len()
}

/// Calls `syn::Attribute::path` and then `syn::Path::get_ident` on the
/// declaration's annotation at `index`, and prints the identifier.
/// `get_ident` gives one only for a path of a single segment with no
/// leading colon and no arguments. Trusted: the result is the name of
/// that annotation in [`item_contents`].
#[verifier::external_body]
pub(crate) fn item_attribute_name(item: &syn::ItemStruct, index: usize) -> (r: Option<String>)
    requires
        index < item_contents(*item).attributes.len(),
    ensures
        r.deep_view() == item_contents(*item).attributes[index as int].name,
{
    item.attrs[index].path().get_ident().map(|ident| ident.to_string())
}

/// Calls `quote::ToTokens::to_token_stream` on the declaration's
/// annotation at `index` and prints the tokens. Trusted: that text is the
/// text of that annotation in [`item_contents`].
#[verifier::external_body]
pub(crate) fn item_attribute_text(item: &syn::ItemStruct, index: usize) -> (r: String)
    requires
        index < item_contents(*item).attributes.len(),
    ensures
        r@ == item_contents(*item).attributes[index as int].text,
{
    item.attrs[index].to_token_stream().to_string()
}

/// Calls `syn::Fields::len` on the declaration's `fields`, which is 0
/// for a unit struct. Trusted: [`item_contents`] holds as many fields.
#[verifier::external_body]
pub(crate) fn item_field_count(item: &syn::ItemStruct) -> (r: usize)
    ensures
        r == item_contents(*item).fields.len(),
{
    item.fields.len()
}

/// Takes the field that `syn::Fields::iter` yields at `index` and prints
/// its `ident`, if it has one. Trusted: the result is the name of that
/// field in [`item_contents`].
#[verifier::external_body]
pub(crate) fn field_name(item: &syn::ItemStruct, index: usize) -> (r: Option<String>)
    requires
        index < item_contents(*item).fields.len(),
    ensures
        r.deep_view() == item_contents(*item).fields[index as int].name,
{
    item.fields.iter().nth(index).unwrap().ident.as_ref().map(|ident| ident.to_string())
}

/// Takes the field that `syn::Fields::iter` yields at `index`, calls
/// `quote::ToTokens::to_token_stream` on its `ty` and prints the tokens.
/// Trusted: that text is the type of that field in [`item_contents`].
#[verifier::external_body]
pub(crate) fn field_type(item: &syn::ItemStruct, index: usize) -> (r: String)
    requires
        index < item_contents(*item).fields.len(),
    ensures
        r@ == item_contents(*item).fields[index as int].ty,
{
    item.fields.iter().nth(index).unwrap().ty.to_token_stream().to_string()
}

/// Takes the field that `syn::Fields::iter` yields at `index`, calls
/// `quote::ToTokens::to_token_stream` on its `vis` and prints the tokens.
/// Trusted: that text is the visibility of that field in
/// [`item_contents`].
#[verifier::external_body]
pub(crate) fn field_vis(item: &syn::ItemStruct, index: usize) -> (r: String)
    requires
        index < item_contents(*item).fields.len(),
    ensures
        r@ == item_contents(*item).fields[index as int].vis,
{
    item.fields.iter().nth(index).unwrap().vis.to_token_stream().to_string()
}

/// The length of the `attrs` of the field that `syn::Fields::iter` yields
/// at `index`. Trusted: [`item_contents`] holds as many annotations for
/// that field.
#[verifier::external_body]
pub(crate) fn field_attribute_count(item: &syn::ItemStruct, index: usize) -> (r: usize)
    requires
        index < item_contents(*item).fields.len(),
    ensures
        r == item_contents(*item).fields[index as int].attributes.len(),
{
    item.fields.iter().nth(index).unwrap().attrs.len()
}

/// Calls `syn::Attribute::path` and then `syn::Path::get_ident` on
/// annotation `at` of the field at `index`, and prints the identifier.
/// Trusted: the result is the name of that annotation in
/// [`item_contents`].
#[verifier::external_body]
pub(crate) fn field_attribute_name(item: &syn::ItemStruct, index: usize, at: usize) -> (r: Option<
    String,
>)
    requires
        index < item_contents(*item).fields.len(),
        at < item_contents(*item).fields[index as int].attributes.len(),
    ensures
        r.deep_view() == item_contents(*item).fields[index as int].attributes[at as int].name,
{
    let field = item.fields.iter().nth(index).unwrap();
    field.attrs[at].path().get_ident().map(|ident| ident.to_string())
}

/// Calls `quote::ToTokens::to_token_stream` on annotation `at` of the
/// field at `index` and prints the tokens. Trusted: that text is the text
/// of that annotation in [`item_contents`].
#[verifier::external_body]
pub(crate) fn field_attribute_text(item: &syn::ItemStruct, index: usize, at: usize) -> (r: String)
    requires
        index < item_contents(*item).fields.len(),
        at < item_contents(*item).fields[index as int].attributes.len(),
    ensures
        r@ == item_contents(*item).fields[index as int].attributes[at as int].text,
{
    let field = item.fields.iter().nth(index).unwrap();
    field.attrs[at].to_token_stream().to_string()
}

} // verus!
