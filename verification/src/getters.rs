//! The accessor generator: one read accessor per field that does not opt
//! out, for declarations with named fields.

use crate::decl::{
    all_named, first_unnamed, lemma_first_unnamed_is, lemma_views_of_push, views_of, FieldView,
    Shape, StructDecl, StructView,
};
use crate::error::{Failure, GenError, Transform};
use crate::render::{impl_text, render_impl};
use crate::text::{concat, lemma_concat_push};
use vstd::prelude::*;
use vstd::string::StringExecFns;

verus! {

/// A generated read accessor: `pub fn name(&self) -> &ty { &self.field }`.
#[derive(Clone, Debug, PartialEq, Eq)]
pub struct Accessor {
    /// The accessor's own name.
    pub name: String,
    /// The field whose value it hands out by reference.
    pub field: String,
    /// The field's declared type.
    pub ty: String,
}

/// What an [`Accessor`] holds, as mathematical values.
pub struct AccessorView {
    pub name: Seq<char>,
    pub field: Seq<char>,
    pub ty: Seq<char>,
}

impl View for Accessor {
    type V = AccessorView;

    open spec fn view(&self) -> AccessorView {
        AccessorView { name: self.name@, field: self.field@, ty: self.ty@ }
    }
}

/// The accessor of a named field: it bears the field's name, reads that
/// field and returns a reference to the field's type.
pub open spec fn accessor_for(field: FieldView) -> AccessorView {
    AccessorView { name: field.name->0, field: field.name->0, ty: field.ty }
}

/// The fields that receive an accessor: those that do not opt out.
pub open spec fn accessed_fields(fields: Seq<FieldView>) -> Seq<FieldView> {
    fields.filter(|f: FieldView| !f.is_excepted)
}

/// The accessors generated for a declaration, in field order; or why none
/// is generated.
pub open spec fn accessors_of(decl: StructView) -> Result<Seq<AccessorView>, Failure> {
    if decl.effective_shape() != Shape::NamedFields {
        Err(
            Failure::UnsupportedShape {
                transform: Transform::Accessors,
                shape: decl.effective_shape(),
            },
        )
    } else if !all_named(decl.fields) {
        Err(Failure::MalformedField { index: first_unnamed(decl.fields) })
    } else {
        Ok(accessed_fields(decl.fields).map_values(|f: FieldView| accessor_for(f)))
    }
}

/// The source text of one accessor.
pub open spec fn accessor_text(accessor: AccessorView) -> Seq<char> {
    "    pub fn "@ + accessor.name + "(&self) -> &"@ + accessor.ty + " {\n        &self."@
        + accessor.field + "\n    }\n"@
}

/// The source text of the block that attaches the accessors to `target`.
pub open spec fn accessors_text(target: Seq<char>, accessors: Seq<AccessorView>) -> Seq<char> {
    impl_text(target, accessors.map_values(|a: AccessorView| accessor_text(a)))
}

/// Generates the accessors of a declaration.
///
/// A declaration with named fields yields one accessor for each field
/// that does not carry the opt-out marker, in field order, and none for a
/// field that does. Any other shape is refused, and so is a declaration
/// with no fields, however it is written; so is a declaration in which a
/// field has no name.
pub fn accessors(decl: &StructDecl) -> (r: Result<Vec<Accessor>, GenError>)
    ensures
        match r {
            Ok(out) => accessors_of(decl@) == Ok::<Seq<AccessorView>, Failure>(views_of(out@)),
            Err(e) => accessors_of(decl@) == Err::<Seq<AccessorView>, Failure>(e@),
        },
{
    let shape = decl.effective_shape();
    if shape != Shape::NamedFields {
        return Err(GenError::UnsupportedShape { transform: Transform::Accessors, shape });
    }
    let ghost all = views_of(decl.fields@);
    let ghost keep = |f: FieldView| !f.is_excepted;
    let ghost make = |f: FieldView| accessor_for(f);
    let mut out: Vec<Accessor> = Vec::new();
    let mut i: usize = 0;
    while i < decl.fields.len()
        invariant
            i <= decl.fields.len(),
            decl@.effective_shape() == Shape::NamedFields,
            all == views_of(decl.fields@),
            keep == |f: FieldView| !f.is_excepted,
            make == |f: FieldView| accessor_for(f),
            all_named(all.take(i as int)),
            views_of(out@) =~= all.take(i as int).filter(keep).map_values(make),
        decreases decl.fields.len() - i,
    {
        let field = &decl.fields[i];
        proof {
            assert(all.take(i + 1) =~= all.take(i as int).push(all[i as int]));
            all.take(i as int).lemma_filter_push(all[i as int], keep);
        }
        match &field.name {
            None => {
                proof {
                    lemma_first_unnamed_is(all, i as int);
                }
                return Err(GenError::MalformedField { index: i });
            },
            Some(name) => {
                if !field.is_excepted {
                    let made = Accessor {
                        name: name.clone(),
                        field: name.clone(),
                        ty: field.ty.clone(),
                    };
                    proof {
                        lemma_views_of_push(out@, made);
                    }
                    out.push(made);
                }
            },
        }
        i += 1;
    }
    assert(all.take(decl.fields.len() as int) =~= all);
    Ok(out)
}

/// Writes the block that attaches `accessors` to the struct `target`, each
/// accessor public, taking only the receiver and returning a shared
/// reference to its field.
pub fn render_accessors(target: &String, accessors: &Vec<Accessor>) -> (out: String)
    ensures
        out@ == accessors_text(target@, views_of(accessors@)),
{
    let ghost texts = views_of(accessors@).map_values(|a: AccessorView| accessor_text(a));
    let mut members = String::new();
    let mut i: usize = 0;
    while i < accessors.len()
        invariant
            i <= accessors.len(),
            texts == views_of(accessors@).map_values(|a: AccessorView| accessor_text(a)),
            members@ == concat(texts.take(i as int)),
        decreases accessors.len() - i,
    {
        let accessor = &accessors[i];
        members.append("    pub fn ");
        members.append(accessor.name.as_str());
        members.append("(&self) -> &");
        members.append(accessor.ty.as_str());
        members.append(" {\n        &self.");
        members.append(accessor.field.as_str());
        members.append("\n    }\n");
        proof {
            assert(texts.take(i + 1) =~= texts.take(i as int).push(texts[i as int]));
            lemma_concat_push(texts.take(i as int), texts[i as int]);
        }
        i += 1;
    }
    assert(texts.take(accessors.len() as int) =~= texts);
    render_impl(target, &members)
}

} // verus!
