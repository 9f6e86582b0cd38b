//! The optionality transform: a declaration in which every field's type is
//! wrapped in `Option`, except where a named field opts out.
//!
//! A named field that carries the opt-out marker keeps its type. Positional
//! fields are wrapped unconditionally and are emitted as bare types. The
//! marker and the invoking annotation never reach the output. A declaration
//! with no fields is refused, however it is written: nothing empty is ever
//! emitted.

use crate::classify::{strip_invoking, without_invoking};
use crate::decl::{
    all_named, first_unnamed, is_first_unnamed, lemma_first_unnamed_is, lemma_views_of_push,
    views_of, FieldDecl, FieldView, Shape, StructDecl, StructView,
};
use crate::error::{Failure, GenError, Transform};
use crate::text::{owned, owned_option};
use vstd::prelude::*;
use vstd::string::StringExecFns;

verus! {

/// The type `Option<ty>`.
pub open spec fn wrap_optional(ty: Seq<char>) -> Seq<char> {
    "Option<"@ + ty + ">"@
}

/// What the transform makes of a named field: the same name and visibility,
/// the type wrapped unless the field opts out, the marker consumed.
pub open spec fn optional_named_field(field: FieldView) -> FieldView {
    FieldView {
        name: field.name,
        ty: if field.is_excepted {
            field.ty
        } else {
            wrap_optional(field.ty)
        },
        vis: field.vis,
        is_excepted: false,
    }
}

/// What the transform makes of a positional field: the bare wrapped type.
pub open spec fn optional_unnamed_field(field: FieldView) -> FieldView {
    FieldView {
        name: None,
        ty: wrap_optional(field.ty),
        vis: Seq::empty(),
        is_excepted: false,
    }
}

/// The declaration that the optionality transform emits in place of
/// `decl`, or why it emits none.
pub open spec fn optional_of(decl: StructView) -> Result<StructView, Failure> {
    if decl.effective_shape() == Shape::NoFields {
        Err(Failure::UnsupportedShape { transform: Transform::Optional, shape: Shape::NoFields })
    } else if decl.shape == Shape::NamedFields && !all_named(decl.fields) {
        Err(Failure::MalformedField { index: first_unnamed(decl.fields) })
    } else {
        Ok(
            StructView {
                name: decl.name,
                vis: decl.vis,
                attributes: without_invoking(decl.attributes),
                fields: if decl.shape == Shape::NamedFields {
                    decl.fields.map_values(|f: FieldView| optional_named_field(f))
                } else {
                    decl.fields.map_values(|f: FieldView| optional_unnamed_field(f))
                },
                shape: decl.shape,
            },
        )
    }
}

/// The text of `Option<ty>`.
pub fn wrap_type(ty: &String) -> (r: String)
    ensures
        r@ == wrap_optional(ty@),
{
    let mut wrapped = owned("Option<");
    wrapped.append(ty.as_str());
    wrapped.append(">");
    wrapped
}

/// The fields of a declaration with named fields, transformed; or the
/// position of the first field that has no name.
fn optional_named_fields(fields: &Vec<FieldDecl>) -> (r: Result<Vec<FieldDecl>, usize>)
    ensures
        match r {
            Ok(out) => all_named(views_of(fields@)) && views_of(out@) == views_of(
                fields@,
            ).map_values(|f: FieldView| optional_named_field(f)),
            Err(index) => is_first_unnamed(views_of(fields@), index as int),
        },
{
    let ghost all = views_of(fields@);
    let ghost step = |f: FieldView| optional_named_field(f);
    let mut out: Vec<FieldDecl> = Vec::new();
    let mut i: usize = 0;
    while i < fields.len()
        invariant
            i <= fields.len(),
            all == views_of(fields@),
            step == |f: FieldView| optional_named_field(f),
            all_named(all.take(i as int)),
            views_of(out@) =~= all.take(i as int).map_values(step),
        decreases fields.len() - i,
    {
        let field = &fields[i];
        if field.name.is_none() {
            return Err(i);
        }
        let ty = if field.is_excepted {
            field.ty.clone()
        } else {
            wrap_type(&field.ty)
        };
        let made = FieldDecl {
            name: owned_option(&field.name),
            ty,
            vis: field.vis.clone(),
            is_excepted: false,
        };
        proof {
            lemma_views_of_push(out@, made);
        }
        out.push(made);
        i += 1;
    }
    assert(all.take(fields.len() as int) =~= all);
    Ok(out)
}

/// The fields of a declaration with positional fields, transformed.
fn optional_unnamed_fields(fields: &Vec<FieldDecl>) -> (out: Vec<FieldDecl>)
    ensures
        views_of(out@) == views_of(fields@).map_values(|f: FieldView| optional_unnamed_field(f)),
{
    let ghost all = views_of(fields@);
    let ghost step = |f: FieldView| optional_unnamed_field(f);
    let mut out: Vec<FieldDecl> = Vec::new();
    let mut i: usize = 0;
    while i < fields.len()
        invariant
            i <= fields.len(),
            all == views_of(fields@),
            step == |f: FieldView| optional_unnamed_field(f),
            views_of(out@) =~= all.take(i as int).map_values(step),
        decreases fields.len() - i,
    {
        let field = &fields[i];
        let made = FieldDecl {
            name: None,
            ty: wrap_type(&field.ty),
            vis: String::new(),
            is_excepted: false,
        };
        proof {
            lemma_views_of_push(out@, made);
        }
        out.push(made);
        i += 1;
    }
    out
}

/// Applies the optionality transform to a declaration.
///
/// The result replaces the declaration: same name, visibility and shape,
/// the annotations without the invoking one, and every field in its place
/// with its type wrapped as [`optional_of`] says. A declaration with no
/// fields, whether it has no field list or an empty one, is refused as an
/// unsupported shape, and one with named fields in which a field has no
/// name as malformed; nothing is emitted then.
pub fn make_optional(decl: &StructDecl) -> (r: Result<StructDecl, GenError>)
    ensures
        match r {
            Ok(out) => optional_of(decl@) == Ok::<StructView, Failure>(out@),
            Err(e) => optional_of(decl@) == Err::<StructView, Failure>(e@),
        },
{
    if decl.effective_shape() == Shape::NoFields {
        return Err(
            GenError::UnsupportedShape { transform: Transform::Optional, shape: Shape::NoFields },
        );
    }
    let fields = if decl.shape == Shape::NamedFields {
        match optional_named_fields(&decl.fields) {
            Ok(fields) => fields,
            Err(index) => {
                proof {
                    lemma_first_unnamed_is(views_of(decl.fields@), index as int);
                }
                return Err(GenError::MalformedField { index });
            },
        }
    } else {
        optional_unnamed_fields(&decl.fields)
    };
    Ok(
        StructDecl {
            name: decl.name.clone(),
            vis: decl.vis.clone(),
            attributes: strip_invoking(&decl.attributes),
            fields,
            shape: decl.shape,
        },
    )
}

} // verus!
