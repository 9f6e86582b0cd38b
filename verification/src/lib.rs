//! Generators of boilerplate struct members.
//!
//! Three transforms read the declaration of a struct and write source text:
//!
//! - [`auto_getters`] writes one read accessor per field,
//! - [`auto_setters_impl`] writes one write mutator per field,
//! - [`optional`] writes the declaration anew with every field made optional.
//!
//! A field may opt out with the annotation `#[except]`. What the marker
//! means to each transform is fixed here, once:
//!
//! | transform | field with `#[except]` |
//! |---|---|
//! | accessors | gets no accessor |
//! | mutators | gets a mutator like any other field |
//! | optional, named fields | keeps its type |
//! | optional, positional fields | is wrapped like any other field |
//!
//! The marker itself is consumed: it never appears in what is emitted.
//!
//! A struct with no fields is refused by all three, whether it is written
//! `struct S;`, `struct S {}` or `struct S();`: nothing empty is emitted.
//! Accessors and mutators need named fields; the optionality transform
//! takes named and positional fields.
//!
//! Each transform is a pure function: it parses the text into a
//! [`StructDecl`], works on that, and renders the result. The steps are
//! public too, so that a declaration can be built and transformed without
//! any source text.

pub mod auto_setters;
pub mod classify;
pub mod decl;
pub mod error;
pub mod getters;
pub mod laws;
pub mod meaning;
pub mod optionality;
pub mod render;
pub mod source;
pub mod syntax;
pub mod text;

pub use crate::auto_setters::{
    auto_setters_impl, mutators, render_mutators, strip_raw, Mutator,
};
pub use crate::classify::{attribute_is, is_excepted, strip_invoking};
pub use crate::decl::{Attribute, FieldDecl, Shape, StructDecl};
pub use crate::error::{GenError, Transform};
pub use crate::getters::{accessors, render_accessors, Accessor};
pub use crate::optionality::{make_optional, wrap_type};
pub use crate::render::render_struct;
pub use crate::source::{field_attributes, parse_struct, read_item};

use crate::error::Failure;
use crate::getters::{accessors_of, accessors_text};
use crate::optionality::optional_of;
use crate::render::struct_text;
use crate::source::declaration_of;
use vstd::prelude::*;

verus! {

/// What the accessor generator emits for a source text; or why it emits
/// nothing.
pub open spec fn auto_getters_of(source: Seq<char>) -> Result<Seq<char>, Failure> {
    match declaration_of(source) {
        Err(failure) => Err(failure),
        Ok(decl) => match accessors_of(decl) {
            Err(failure) => Err(failure),
            Ok(accessors) => Ok(accessors_text(decl.name, accessors)),
        },
    }
}

/// What the optionality transform emits for a source text; or why it emits
/// nothing.
pub open spec fn optional_text_of(source: Seq<char>) -> Result<Seq<char>, Failure> {
    match declaration_of(source) {
        Err(failure) => Err(failure),
        Ok(decl) => match optional_of(decl) {
            Err(failure) => Err(failure),
            Ok(made) => Ok(struct_text(made)),
        },
    }
}

/// The accessor generator, from source text to source text.
///
/// `input` is the text of a struct declaration. The result is the text of
/// a block of accessors for that struct, to stand beside the declaration;
/// or the failure of the parser or of the generator, and then no text. It
/// succeeds exactly on a struct with named fields, at least one.
pub fn auto_getters(input: &str) -> (r: Result<String, GenError>)
    ensures
        match r {
            Ok(text) => auto_getters_of(input@) == Ok::<Seq<char>, Failure>(text@),
            Err(e) => auto_getters_of(input@) == Err::<Seq<char>, Failure>(e@),
        },
        declaration_of(input@) matches Ok(decl) ==> decl.wf(),
        r is Ok <==> (declaration_of(input@) matches Ok(decl) && decl.effective_shape()
            == Shape::NamedFields),
{
    let decl = parse_struct(input)?;
    let generated = accessors(&decl)?;
    Ok(render_accessors(&decl.name, &generated))
}

/// The optionality transform, from source text to source text.
///
/// `item` is the text of a struct declaration; `_attr`, the arguments of
/// the invoking annotation, is not read. The result is the text of the
/// declaration that replaces `item`; or the failure of the parser or of
/// the transform, and then no text. It succeeds exactly on a struct with
/// at least one field, named or positional.
pub fn optional(_attr: &str, item: &str) -> (r: Result<String, GenError>)
    ensures
        match r {
            Ok(text) => optional_text_of(item@) == Ok::<Seq<char>, Failure>(text@),
            Err(e) => optional_text_of(item@) == Err::<Seq<char>, Failure>(e@),
        },
        declaration_of(item@) matches Ok(decl) ==> decl.wf(),
        r is Ok <==> (declaration_of(item@) matches Ok(decl) && decl.effective_shape()
            != Shape::NoFields),
{
    let decl = parse_struct(item)?;
    let made = make_optional(&decl)?;
    render_struct(&made)
}

} // verus!
