//! The text of a declaration.

use crate::decl::{
    all_named, first_unnamed, is_first_unnamed, lemma_first_unnamed_is, views_of, Attribute,
    AttributeView, FieldDecl, FieldView, Shape, StructDecl, StructView,
};
use crate::error::{Failure, GenError};
use crate::text::{concat, join, lemma_concat_push, lemma_join_push};
use vstd::prelude::*;
use vstd::string::StringExecFns;

verus! {

/// A visibility followed by a space, or nothing where none is written.
pub open spec fn vis_prefix(vis: Seq<char>) -> Seq<char> {
    if vis.len() == 0 {
        Seq::empty()
    } else {
        vis + " "@
    }
}

/// The opt-out marker followed by a space, on a field that carries it.
pub open spec fn marker_prefix(field: FieldView) -> Seq<char> {
    if field.is_excepted {
        "#[except] "@
    } else {
        Seq::empty()
    }
}

/// An annotation on a line of its own.
pub open spec fn attribute_line(attribute: AttributeView) -> Seq<char> {
    attribute.text + "\n"@
}

/// A named field on a new line, indented.
pub open spec fn named_field_line(field: FieldView) -> Seq<char> {
    "\n    "@ + marker_prefix(field) + vis_prefix(field.vis) + field.name->0 + ": "@ + field.ty
}

/// A positional field as it stands between the parentheses.
pub open spec fn unnamed_field_item(field: FieldView) -> Seq<char> {
    marker_prefix(field) + vis_prefix(field.vis) + field.ty
}

/// What precedes the field list: the annotations, the visibility, the
/// keyword and the name.
pub open spec fn struct_head(decl: StructView) -> Seq<char> {
    concat(decl.attributes.map_values(|a: AttributeView| attribute_line(a))) + vis_prefix(decl.vis)
        + "struct "@ + decl.name
}

/// The declaration as source text.
pub open spec fn struct_text(decl: StructView) -> Seq<char> {
    match decl.shape {
        Shape::NamedFields => struct_head(decl) + " {"@ + join(
            decl.fields.map_values(|f: FieldView| named_field_line(f)),
            ","@,
        ) + "\n}\n"@,
        Shape::UnnamedFields => struct_head(decl) + "("@ + join(
            decl.fields.map_values(|f: FieldView| unnamed_field_item(f)),
            ", "@,
        ) + ");\n"@,
        Shape::NoFields => struct_head(decl) + ";\n"@,
    }
}

/// The text of a declaration, or the failure that leaves it without one: a
/// declaration with named fields in which a field has no name.
pub open spec fn rendering_of(decl: StructView) -> Result<Seq<char>, Failure> {
    if decl.shape == Shape::NamedFields && !all_named(decl.fields) {
        Err(Failure::MalformedField { index: first_unnamed(decl.fields) })
    } else {
        Ok(struct_text(decl))
    }
}

/// Appends a visibility and a space, or nothing for an empty visibility.
fn push_vis(out: &mut String, vis: &String)
    ensures
        final(out)@ == old(out)@ + vis_prefix(vis@),
{
    if !vis.as_str().is_empty() {
        out.append(vis.as_str());
        out.append(" ");
    }
}

/// Appends the opt-out marker and a space where the field carries it.
fn push_marker(out: &mut String, field: &FieldDecl)
    ensures
        final(out)@ == old(out)@ + marker_prefix(field@),
{
    if field.is_excepted {
        out.append("#[except] ");
    }
}

/// The annotations of a declaration, one per line.
fn render_attributes(attributes: &Vec<Attribute>) -> (out: String)
    ensures
        out@ == concat(views_of(attributes@).map_values(|a: AttributeView| attribute_line(a))),
{
    let ghost lines = views_of(attributes@).map_values(|a: AttributeView| attribute_line(a));
    let mut out = String::new();
    let mut i: usize = 0;
    while i < attributes.len()
        invariant
            i <= attributes.len(),
            lines == views_of(attributes@).map_values(|a: AttributeView| attribute_line(a)),
            out@ == concat(lines.take(i as int)),
        decreases attributes.len() - i,
    {
        out.append(attributes[i].text.as_str());
        out.append("\n");
        proof {
            assert(lines.take(i + 1) =~= lines.take(i as int).push(lines[i as int]));
            lemma_concat_push(lines.take(i as int), lines[i as int]);
        }
        i += 1;
    }
    assert(lines.take(attributes.len() as int) =~= lines);
    out
}

/// The lines of the named fields, separated by commas; or the position of
/// the first field that has no name.
fn render_named_fields(fields: &Vec<FieldDecl>) -> (r: Result<String, usize>)
    ensures
        match r {
            Ok(out) => all_named(views_of(fields@)) && out@ == join(
                views_of(fields@).map_values(|f: FieldView| named_field_line(f)),
                ","@,
            ),
            Err(index) => is_first_unnamed(views_of(fields@), index as int),
        },
{
    let ghost all = views_of(fields@);
    let ghost lines = all.map_values(|f: FieldView| named_field_line(f));
    let mut out = String::new();
    let mut i: usize = 0;
    while i < fields.len()
        invariant
            i <= fields.len(),
            all == views_of(fields@),
            lines == all.map_values(|f: FieldView| named_field_line(f)),
            all_named(all.take(i as int)),
            out@ == join(lines.take(i as int), ","@),
        decreases fields.len() - i,
    {
        let field = &fields[i];
        match &field.name {
            None => {
                return Err(i);
            },
            Some(name) => {
                if i > 0 {
                    out.append(",");
                }
                out.append("\n    ");
                push_marker(&mut out, field);
                push_vis(&mut out, &field.vis);
                out.append(name.as_str());
                out.append(": ");
                out.append(field.ty.as_str());
            },
        }
        proof {
            assert(lines.take(i + 1) =~= lines.take(i as int).push(lines[i as int]));
            lemma_join_push(lines.take(i as int), ","@, lines[i as int]);
        }
        i += 1;
    }
    assert(lines.take(fields.len() as int) =~= lines);
    assert(all.take(fields.len() as int) =~= all);
    Ok(out)
}

/// The positional fields, separated by commas.
fn render_unnamed_fields(fields: &Vec<FieldDecl>) -> (out: String)
    ensures
        out@ == join(views_of(fields@).map_values(|f: FieldView| unnamed_field_item(f)), ", "@),
{
    let ghost all = views_of(fields@);
    let ghost items = all.map_values(|f: FieldView| unnamed_field_item(f));
    let mut out = String::new();
    let mut i: usize = 0;
    while i < fields.len()
        invariant
            i <= fields.len(),
            all == views_of(fields@),
            items == all.map_values(|f: FieldView| unnamed_field_item(f)),
            out@ == join(items.take(i as int), ", "@),
        decreases fields.len() - i,
    {
        let field = &fields[i];
        if i > 0 {
            out.append(", ");
        }
        push_marker(&mut out, field);
        push_vis(&mut out, &field.vis);
        out.append(field.ty.as_str());
        proof {
            assert(items.take(i + 1) =~= items.take(i as int).push(items[i as int]));
            lemma_join_push(items.take(i as int), ", "@, items[i as int]);
        }
        i += 1;
    }
    assert(items.take(fields.len() as int) =~= items);
    out
}

/// Writes a declaration as source text: the annotations one per line, the
/// head, and the field list in the form in which the declaration's shape
/// says it is written, each field in its place. Any declaration can be
/// written, an empty one too; it is the transforms that emit none.
///
/// A declaration with named fields in which a field has no name has no
/// text; the failure names the first such field.
pub fn render_struct(decl: &StructDecl) -> (r: Result<String, GenError>)
    ensures
        match r {
            Ok(text) => rendering_of(decl@) == Ok::<Seq<char>, Failure>(text@),
            Err(e) => rendering_of(decl@) == Err::<Seq<char>, Failure>(e@),
        },
{
    let mut out = render_attributes(&decl.attributes);
    push_vis(&mut out, &decl.vis);
    out.append("struct ");
    out.append(decl.name.as_str());
    match decl.shape {
        Shape::NamedFields => {
            match render_named_fields(&decl.fields) {
                Ok(lines) => {
                    out.append(" {");
                    out.append(lines.as_str());
                    out.append("\n}\n");
                },
                Err(index) => {
                    proof {
                        let all = views_of(decl.fields@);
                        lemma_first_unnamed_is(all, index as int);
                    }
                    return Err(GenError::MalformedField { index });
                },
            }
        },
        Shape::UnnamedFields => {
            let items = render_unnamed_fields(&decl.fields);
            out.append("(");
            out.append(items.as_str());
            out.append(");\n");
        },
        Shape::NoFields => {
            out.append(";\n");
        },
    }
    Ok(out)
}

/// A block of members attached to the struct named `target`.
pub open spec fn impl_text(target: Seq<char>, members: Seq<Seq<char>>) -> Seq<char> {
    "impl "@ + target + " {\n"@ + concat(members) + "}\n"@
}

/// Encloses the text of some members in a block attached to `target`.
pub(crate) fn render_impl(target: &String, members: &String) -> (out: String)
    ensures
        out@ == "impl "@ + target@ + " {\n"@ + members@ + "}\n"@,
{
    let mut out = String::from_str("impl ");
    out.append(target.as_str());
    out.append(" {\n");
    out.append(members.as_str());
    out.append("}\n");
    out
}

} // verus!
