//! The mutator generator: one write mutator per field, for declarations
//! with named fields. The opt-out marker has no effect here.

use crate::decl::{
    all_named, first_unnamed, lemma_first_unnamed_is, lemma_views_of_push, views_of, FieldView,
    Shape, StructDecl, StructView,
};
use crate::error::{Failure, GenError, Transform};
use crate::render::{impl_text, render_impl};
use crate::source::{declaration_of, parse_struct};
use crate::text::{concat, lemma_concat_push, owned};
use vstd::prelude::*;
use vstd::string::StringExecFns;

verus! {

/// A generated write mutator:
/// `pub fn name<T: Into<ty>>(&mut self, value: T) { self.field = value.into(); }`.
#[derive(Clone, Debug, PartialEq, Eq)]
pub struct Mutator {
    /// The mutator's own name.
    pub name: String,
    /// The field it overwrites.
    pub field: String,
    /// The field's declared type, into which the argument is converted.
    pub ty: String,
}

/// What a [`Mutator`] holds, as mathematical values.
pub struct MutatorView {
    pub name: Seq<char>,
    pub field: Seq<char>,
    pub ty: Seq<char>,
}

impl View for Mutator {
    type V = MutatorView;

    open spec fn view(&self) -> MutatorView {
        MutatorView { name: self.name@, field: self.field@, ty: self.ty@ }
    }
}

/// What every mutator's name begins with.
pub open spec fn mutator_prefix() -> Seq<char> {
    "set_"@
}

/// Whether a field's name is written as a raw identifier, `r#type`.
pub open spec fn is_raw(name: Seq<char>) -> bool {
    name.len() >= 2 && name[0] == 'r' && name[1] == '#'
}

/// The name that an identifier stands for: a raw identifier `r#type` stands
/// for `type`, any other for itself.
pub open spec fn bare_name(name: Seq<char>) -> Seq<char> {
    if is_raw(name) {
        name.skip(2)
    } else {
        name
    }
}

/// The mutator of a named field: the prefix and the field's bare name make
/// its name, so that it is an identifier also where the field is written
/// raw; it overwrites the field as the field is written, and it accepts what
/// converts into the field's type.
pub open spec fn mutator_for(field: FieldView) -> MutatorView {
    MutatorView {
        name: mutator_prefix() + bare_name(field.name->0),
        field: field.name->0,
        ty: field.ty,
    }
}

/// The mutators generated for a declaration, in field order; or why none is
/// generated.
pub open spec fn mutators_of(decl: StructView) -> Result<Seq<MutatorView>, Failure> {
    if decl.effective_shape() != Shape::NamedFields {
        Err(
            Failure::UnsupportedShape {
                transform: Transform::Mutators,
                shape: decl.effective_shape(),
            },
        )
    } else if !all_named(decl.fields) {
        Err(Failure::MalformedField { index: first_unnamed(decl.fields) })
    } else {
        Ok(decl.fields.map_values(|f: FieldView| mutator_for(f)))
    }
}

/// The source text of one mutator.
pub open spec fn mutator_text(mutator: MutatorView) -> Seq<char> {
    "    pub fn "@ + mutator.name + "<T: Into<"@ + mutator.ty
        + ">>(&mut self, value: T) {\n        self."@ + mutator.field
        + " = value.into();\n    }\n"@
}

/// The source text of the block that attaches the mutators to `target`.
pub open spec fn mutators_text(target: Seq<char>, mutators: Seq<MutatorView>) -> Seq<char> {
    impl_text(target, mutators.map_values(|m: MutatorView| mutator_text(m)))
}

/// What the mutator generator emits for a source text; or why it emits
/// nothing.
pub open spec fn auto_setters_of(source: Seq<char>) -> Result<Seq<char>, Failure> {
    match declaration_of(source) {
        Err(failure) => Err(failure),
        Ok(decl) => match mutators_of(decl) {
            Err(failure) => Err(failure),
            Ok(mutators) => Ok(mutators_text(decl.name, mutators)),
        },
    }
}

/// The name that a field's identifier stands for, without the `r#` of a raw
/// identifier.
pub fn strip_raw(name: &String) -> (r: String)
    ensures
        r@ == bare_name(name@),
{
    let text = name.as_str();
    let length = text.unicode_len();
    if length >= 2 && text.get_char(0) == 'r' && text.get_char(1) == '#' {
        owned(text.substring_char(2, length))
    } else {
        name.clone()
    }
}

/// Generates the mutators of a declaration.
///
/// A declaration with named fields yields one mutator for every field, in
/// field order, named by the prefix and the field's bare name. Any other
/// shape is refused, and so is a declaration with no fields, however it is
/// written; so is a declaration in which a field has no name.
pub fn mutators(decl: &StructDecl) -> (r: Result<Vec<Mutator>, GenError>)
    ensures
        match r {
            Ok(out) => mutators_of(decl@) == Ok::<Seq<MutatorView>, Failure>(views_of(out@)),
            Err(e) => mutators_of(decl@) == Err::<Seq<MutatorView>, Failure>(e@),
        },
{
    let shape = decl.effective_shape();
    if shape != Shape::NamedFields {
        return Err(GenError::UnsupportedShape { transform: Transform::Mutators, shape });
    }
    let ghost all = views_of(decl.fields@);
    let ghost make = |f: FieldView| mutator_for(f);
    let mut out: Vec<Mutator> = Vec::new();
    let mut i: usize = 0;
    while i < decl.fields.len()
        invariant
            i <= decl.fields.len(),
            decl@.effective_shape() == Shape::NamedFields,
            all == views_of(decl.fields@),
            make == |f: FieldView| mutator_for(f),
            all_named(all.take(i as int)),
            views_of(out@) =~= all.take(i as int).map_values(make),
        decreases decl.fields.len() - i,
    {
        let field = &decl.fields[i];
        match &field.name {
            None => {
                proof {
                    lemma_first_unnamed_is(all, i as int);
                }
                return Err(GenError::MalformedField { index: i });
            },
            Some(name) => {
                let mut set_name = owned("set_");
                set_name.append(strip_raw(name).as_str());
                let made = Mutator { name: set_name, field: name.clone(), ty: field.ty.clone() };
                proof {
                    lemma_views_of_push(out@, made);
                }
                out.push(made);
            },
        }
        i += 1;
    }
    assert(all.take(decl.fields.len() as int) =~= all);
    Ok(out)
}

/// Writes the block that attaches `mutators` to the struct `target`, each
/// mutator public, generic in what it accepts, and returning nothing.
pub fn render_mutators(target: &String, mutators: &Vec<Mutator>) -> (out: String)
    ensures
        out@ == mutators_text(target@, views_of(mutators@)),
{
    let ghost texts = views_of(mutators@).map_values(|m: MutatorView| mutator_text(m));
    let mut members = String::new();
    let mut i: usize = 0;
    while i < mutators.len()
        invariant
            i <= mutators.len(),
            texts == views_of(mutators@).map_values(|m: MutatorView| mutator_text(m)),
            members@ == concat(texts.take(i as int)),
        decreases mutators.len() - i,
    {
        let mutator = &mutators[i];
        members.append("    pub fn ");
        members.append(mutator.name.as_str());
        members.append("<T: Into<");
        members.append(mutator.ty.as_str());
        members.append(">>(&mut self, value: T) {\n        self.");
        members.append(mutator.field.as_str());
        members.append(" = value.into();\n    }\n");
        proof {
            assert(texts.take(i + 1) =~= texts.take(i as int).push(texts[i as int]));
            lemma_concat_push(texts.take(i as int), texts[i as int]);
        }
        i += 1;
    }
    assert(texts.take(mutators.len() as int) =~= texts);
    render_impl(target, &members)
}

/// The mutator generator, from source text to source text.
///
/// `input` is the text of a struct declaration. The result is the text of
/// a block of mutators for that struct, to stand beside the declaration;
/// or the failure of the parser or of the generator, and then no text. It
/// succeeds exactly on a struct with named fields, at least one.
pub fn auto_setters_impl(input: &str) -> (r: Result<String, GenError>)
    ensures
        match r {
            Ok(text) => auto_setters_of(input@) == Ok::<Seq<char>, Failure>(text@),
            Err(e) => auto_setters_of(input@) == Err::<Seq<char>, Failure>(e@),
        },
        declaration_of(input@) matches Ok(decl) ==> decl.wf(),
        r is Ok <==> (declaration_of(input@) matches Ok(decl) && decl.effective_shape()
            == Shape::NamedFields),
{
    let decl = parse_struct(input)?;
    let generated = mutators(&decl)?;
    Ok(render_mutators(&decl.name, &generated))
}

} // verus!
