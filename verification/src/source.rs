//! From source text to the declaration the generators work on.

use crate::classify::{carries_except, is_excepted};
use crate::decl::{
    lemma_views_of_push, views_of, Attribute, FieldDecl, FieldView, StructDecl, StructView,
};
use crate::error::{Failure, GenError};
use crate::syntax::{
    error_message, field_attribute_count, field_attribute_name, field_attribute_text,
    field_name, field_type, field_vis, item_attribute_count, item_attribute_name,
    item_attribute_text, item_contents, item_field_count, item_name, item_shape, item_vis,
    names_agree, parse_item, parse_outcome, ParsedField, ParsedStruct,
};
use vstd::prelude::*;

verus! {

/// A parsed field with its annotations classified: the field carries the
/// opt-out flag exactly when one of its annotations is the marker. No other
/// annotation has any effect, and none is kept.
pub open spec fn classified_field(field: ParsedField) -> FieldView {
    FieldView {
        name: field.name,
        ty: field.ty,
        vis: field.vis,
        is_excepted: carries_except(field.attributes),
    }
}

/// A parsed declaration with the annotations of its fields classified.
pub open spec fn classified(parsed: ParsedStruct) -> StructView {
    StructView {
        name: parsed.name,
        vis: parsed.vis,
        attributes: parsed.attributes,
        fields: parsed.fields.map_values(|f: ParsedField| classified_field(f)),
        shape: parsed.shape,
    }
}

/// Classifying keeps the names and the shape, so a declaration whose names
/// agree with its field list is well formed.
pub proof fn lemma_classified_well_formed(parsed: ParsedStruct)
    requires
        names_agree(parsed),
    ensures
        classified(parsed).wf(),
{
}

/// The declaration that a source text holds, or the parser's complaint.
pub open spec fn declaration_of(source: Seq<char>) -> Result<StructView, Failure> {
    match parse_outcome(source) {
        Ok(parsed) => Ok(classified(parsed)),
        Err(message) => Err(Failure::Syntax { message }),
    }
}

/// The annotations on the declaration itself.
fn read_item_attributes(item: &syn::ItemStruct) -> (out: Vec<Attribute>)
    ensures
        views_of(out@) == item_contents(*item).attributes,
{
    let count = item_attribute_count(item);
    let mut out: Vec<Attribute> = Vec::new();
    let mut i: usize = 0;
    while i < count
        invariant
            i <= count,
            count == item_contents(*item).attributes.len(),
            views_of(out@) =~= item_contents(*item).attributes.take(i as int),
        decreases count - i,
    {
        let read = Attribute {
            name: item_attribute_name(item, i),
            text: item_attribute_text(item, i),
        };
        proof {
            lemma_views_of_push(out@, read);
        }
        out.push(read);
        i += 1;
    }
    out
}

/// The annotations on the field at `index`.
fn read_field_attributes(item: &syn::ItemStruct, index: usize) -> (out: Vec<Attribute>)
    requires
        index < item_contents(*item).fields.len(),
    ensures
        views_of(out@) == item_contents(*item).fields[index as int].attributes,
{
    let count = field_attribute_count(item, index);
    let ghost all = item_contents(*item).fields[index as int].attributes;
    let mut out: Vec<Attribute> = Vec::new();
    let mut i: usize = 0;
    while i < count
        invariant
            i <= count,
            index < item_contents(*item).fields.len(),
            all == item_contents(*item).fields[index as int].attributes,
            count == all.len(),
            views_of(out@) =~= all.take(i as int),
        decreases count - i,
    {
        let read = Attribute {
            name: field_attribute_name(item, index, i),
            text: field_attribute_text(item, index, i),
        };
        proof {
            lemma_views_of_push(out@, read);
        }
        out.push(read);
        i += 1;
    }
    out
}

/// The annotations on the field at `index`, in source order; `None` where
/// the declaration has no field there.
pub fn field_attributes(item: &syn::ItemStruct, index: usize) -> (r: Option<Vec<Attribute>>)
    ensures
        match r {
            Some(out) => index < item_contents(*item).fields.len() && views_of(out@)
                == item_contents(*item).fields[index as int].attributes,
            None => index >= item_contents(*item).fields.len(),
        },
{
    if index < item_field_count(item) {
        Some(read_field_attributes(item, index))
    } else {
        None
    }
}

/// The fields of the declaration, each classified once.
fn read_fields(item: &syn::ItemStruct) -> (out: Vec<FieldDecl>)
    ensures
        views_of(out@) == item_contents(*item).fields.map_values(
            |f: ParsedField| classified_field(f),
        ),
{
    let count = item_field_count(item);
    let ghost all = item_contents(*item).fields.map_values(|f: ParsedField| classified_field(f));
    let mut out: Vec<FieldDecl> = Vec::new();
    let mut i: usize = 0;
    while i < count
        invariant
            i <= count,
            count == item_contents(*item).fields.len(),
            all == item_contents(*item).fields.map_values(|f: ParsedField| classified_field(f)),
            views_of(out@) =~= all.take(i as int),
        decreases count - i,
    {
        let attributes = read_field_attributes(item, i);
        let read = FieldDecl {
            name: field_name(item, i),
            ty: field_type(item, i),
            vis: field_vis(item, i),
            is_excepted: is_excepted(&attributes),
        };
        proof {
            lemma_views_of_push(out@, read);
        }
        out.push(read);
        i += 1;
    }
    out
}

/// Reads a parsed struct into the generators' representation: name,
/// visibility, annotations and shape as the parser reports them, and each
/// field with its opt-out flag computed from its annotations.
pub fn read_item(item: &syn::ItemStruct) -> (decl: StructDecl)
    ensures
        decl@ == classified(item_contents(*item)),
{
    StructDecl {
        name: item_name(item),
        vis: item_vis(item),
        attributes: read_item_attributes(item),
        fields: read_fields(item),
        shape: item_shape(item),
    }
}

/// Parses a source text as one struct declaration.
///
/// Succeeds exactly when the parser accepts the whole text as a struct;
/// otherwise the failure carries the parser's message. A declaration that
/// comes from the parser is well formed.
pub fn parse_struct(source: &str) -> (r: Result<StructDecl, GenError>)
    ensures
        match r {
            Ok(decl) => declaration_of(source@) == Ok::<StructView, Failure>(decl@),
            Err(e) => declaration_of(source@) == Err::<StructView, Failure>(e@),
        },
        r matches Ok(decl) ==> decl@.wf(),
{
    match parse_item(source) {
        Ok(item) => Ok(read_item(&item)),
        Err(error) => Err(GenError::Syntax { message: error_message(&error) }),
    }
}

} // verus!
