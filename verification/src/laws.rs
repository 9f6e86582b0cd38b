//! What holds of the generators on every declaration.

use crate::auto_setters::{
    bare_name, is_raw, mutator_for, mutator_prefix, mutators_of, MutatorView,
};
use crate::classify::{carries_except, except_marker, invoking_marker, is_named, without_invoking};
use crate::decl::{all_named, AttributeView, FieldView, Shape, StructView};
use crate::error::{Failure, Transform};
use crate::getters::{accessor_for, accessors_of, AccessorView};
use crate::meaning::{read_value, write_value};
use crate::optionality::{optional_of, wrap_optional};
use crate::render::rendering_of;
use vstd::prelude::*;

verus! {

/// The positions of the items of `items` that `keep` holds of, ascending.
pub open spec fn kept_positions<A>(items: Seq<A>, keep: spec_fn(A) -> bool) -> Seq<int>
    decreases items.len(),
{
    if items.len() == 0 {
        Seq::empty()
    } else {
        let before = kept_positions(items.drop_last(), keep);
        if keep(items.last()) {
            before.push(items.len() - 1)
        } else {
            before
        }
    }
}

/// Filtering keeps exactly the items at the kept positions, each once and in
/// the order in which they stood.
pub proof fn lemma_filter_keeps_order<A>(items: Seq<A>, keep: spec_fn(A) -> bool)
    ensures
        kept_positions(items, keep).len() == items.filter(keep).len(),
        forall|j: int|
            0 <= j < kept_positions(items, keep).len() ==> {
                let at = #[trigger] kept_positions(items, keep)[j];
                &&& 0 <= at < items.len()
                &&& keep(items[at])
                &&& items.filter(keep)[j] == items[at]
            },
        forall|j: int, k: int|
            0 <= j < k < kept_positions(items, keep).len() ==> kept_positions(items, keep)[j]
                < kept_positions(items, keep)[k],
        forall|i: int|
            0 <= i < items.len() && keep(#[trigger] items[i]) ==> kept_positions(
                items,
                keep,
            ).contains(i),
    decreases items.len(),
{
    reveal(Seq::filter);
    if items.len() > 0 {
        let shorter = items.drop_last();
        lemma_filter_keeps_order(shorter, keep);
        let before = kept_positions(shorter, keep);
        let now = kept_positions(items, keep);
        assert forall|i: int| 0 <= i < items.len() && keep(#[trigger] items[i]) implies now.contains(
            i,
        ) by {
            if i < items.len() - 1 {
                assert(shorter[i] == items[i]);
                let j = choose|j: int| 0 <= j < before.len() && before[j] == i;
                assert(now[j] == i);
            } else {
                assert(now[now.len() - 1] == i);
            }
        }
    }
}

/// A declaration with no fields is refused by every generator, whether it
/// is written without a field list or with an empty one: none emits an
/// empty block or an empty declaration.
pub proof fn lemma_no_fields_refused(decl: StructView)
    requires
        decl.fields.len() == 0,
    ensures
        accessors_of(decl) == Err::<Seq<AccessorView>, Failure>(
            Failure::UnsupportedShape { transform: Transform::Accessors, shape: Shape::NoFields },
        ),
        mutators_of(decl) == Err::<Seq<MutatorView>, Failure>(
            Failure::UnsupportedShape { transform: Transform::Mutators, shape: Shape::NoFields },
        ),
        optional_of(decl) == Err::<StructView, Failure>(
            Failure::UnsupportedShape { transform: Transform::Optional, shape: Shape::NoFields },
        ),
{
}

/// The accessor generator emits exactly one accessor per field that does
/// not opt out, and none for a field that does: on a declaration with
/// named fields it succeeds, and its accessors stand one to one, in order,
/// for the fields at the positions that do not carry the marker. Each
/// bears its field's name, reads that field and returns its type.
pub proof fn lemma_one_accessor_per_unexcepted_field(decl: StructView)
    requires
        decl.shape == Shape::NamedFields,
        decl.fields.len() > 0,
        all_named(decl.fields),
    ensures
        accessors_of(decl) is Ok,
        ({
            let accessors = accessors_of(decl)->Ok_0;
            let positions = kept_positions(decl.fields, |f: FieldView| !f.is_excepted);
            &&& accessors.len() == positions.len()
            &&& forall|j: int|
                0 <= j < accessors.len() ==> {
                    let field = decl.fields[#[trigger] positions[j]];
                    &&& 0 <= positions[j] < decl.fields.len()
                    &&& !field.is_excepted
                    &&& accessors[j].name == field.name->0
                    &&& accessors[j].field == field.name->0
                    &&& accessors[j].ty == field.ty
                }
            &&& forall|j: int, k: int|
                0 <= j < k < positions.len() ==> positions[j] < positions[k]
            &&& forall|i: int|
                0 <= i < decl.fields.len() && !(#[trigger] decl.fields[i]).is_excepted
                    ==> positions.contains(i)
        }),
{
    let keep = |f: FieldView| !f.is_excepted;
    lemma_filter_keeps_order(decl.fields, keep);
}

/// Read-through: the accessor generated for a field hands out, of any
/// instance, exactly the value that the instance holds under that field's
/// name.
pub proof fn lemma_accessor_reads_through<V>(
    decl: StructView,
    i: int,
    instance: Map<Seq<char>, V>,
)
    requires
        decl.shape == Shape::NamedFields,
        all_named(decl.fields),
        0 <= i < decl.fields.len(),
        !decl.fields[i].is_excepted,
    ensures
        accessors_of(decl) is Ok,
        accessors_of(decl)->Ok_0.contains(accessor_for(decl.fields[i])),
        read_value(accessor_for(decl.fields[i]), instance) == instance[decl.fields[i].name->0],
{
    let keep = |f: FieldView| !f.is_excepted;
    lemma_filter_keeps_order(decl.fields, keep);
    let positions = kept_positions(decl.fields, keep);
    let j = choose|j: int| 0 <= j < positions.len() && positions[j] == i;
    assert(accessors_of(decl)->Ok_0[j] == accessor_for(decl.fields[i]));
}

/// The mutator generator emits one mutator per field, whether or not the
/// field opts out: on a declaration with named fields it succeeds, and the
/// mutator at each position is named by the prefix and the name of the
/// field at that position, overwrites that field and accepts what converts
/// into its type. Where the field is written as a raw identifier, the name
/// is the prefix and what follows the `r#`.
pub proof fn lemma_one_mutator_per_field(decl: StructView)
    requires
        decl.shape == Shape::NamedFields,
        decl.fields.len() > 0,
        all_named(decl.fields),
    ensures
        mutators_of(decl) is Ok,
        mutators_of(decl)->Ok_0.len() == decl.fields.len(),
        forall|i: int|
            0 <= i < decl.fields.len() ==> {
                let mutator = #[trigger] mutators_of(decl)->Ok_0[i];
                &&& mutator.name == mutator_prefix() + bare_name(decl.fields[i].name->0)
                &&& !is_raw(decl.fields[i].name->0) ==> mutator.name == mutator_prefix()
                    + decl.fields[i].name->0
                &&& mutator.field == decl.fields[i].name->0
                &&& mutator.ty == decl.fields[i].ty
            },
{
}

/// Write-then-read: after the mutator generated for a field is invoked
/// with a value, the accessor of that field reads the value's converted
/// form, and every other field reads as before.
pub proof fn lemma_write_then_read<S, V>(
    decl: StructView,
    i: int,
    instance: Map<Seq<char>, V>,
    value: S,
    convert: spec_fn(S) -> V,
)
    requires
        decl.shape == Shape::NamedFields,
        all_named(decl.fields),
        0 <= i < decl.fields.len(),
    ensures
        mutators_of(decl) is Ok,
        ({
            let mutator = mutators_of(decl)->Ok_0[i];
            let after = write_value(mutator, instance, convert(value));
            &&& mutator == mutator_for(decl.fields[i])
            &&& read_value(accessor_for(decl.fields[i]), after) == convert(value)
            &&& forall|other: AccessorView|
                other.field != decl.fields[i].name->0 ==> #[trigger] read_value(other, after)
                    == read_value(other, instance)
        }),
{
}

/// A field's opt-out flag goes by the marker alone: it is set exactly when
/// at least one of the field's annotations is the marker, whatever other
/// annotations stand before, between or after.
pub proof fn lemma_only_the_marker_counts(attributes: Seq<AttributeView>)
    ensures
        carries_except(attributes) <==> attributes.filter(
            |a: AttributeView| is_named(a, except_marker()),
        ).len() > 0,
{
    let marked = |a: AttributeView| is_named(a, except_marker());
    let markers = attributes.filter(marked);
    if carries_except(attributes) {
        let i = choose|i: int|
            0 <= i < attributes.len() && is_named(#[trigger] attributes[i], except_marker());
        attributes.lemma_filter_contains(marked, i);
    }
    if markers.len() > 0 {
        attributes.lemma_filter_contains_rev(marked, markers[0]);
    }
}

/// Whether a value may be absent from a field of this type: the type is
/// `Option` of some type.
pub open spec fn admits_absent(ty: Seq<char>) -> bool {
    exists|inner: Seq<char>| ty == wrap_optional(inner)
}

/// On a declaration with named fields the optionality transform succeeds
/// and keeps every field in its place, with its name and visibility. A
/// field that does not opt out gets the wrapped type, so a value may be
/// absent from it; a field that opts out keeps its type, so its value
/// must be supplied.
pub proof fn lemma_optional_named(decl: StructView)
    requires
        decl.shape == Shape::NamedFields,
        decl.fields.len() > 0,
        all_named(decl.fields),
    ensures
        optional_of(decl) is Ok,
        ({
            let made = optional_of(decl)->Ok_0;
            &&& made.shape == Shape::NamedFields
            &&& made.name == decl.name
            &&& made.vis == decl.vis
            &&& made.fields.len() == decl.fields.len()
            &&& forall|i: int|
                0 <= i < decl.fields.len() ==> {
                    let before = decl.fields[i];
                    let after = #[trigger] made.fields[i];
                    &&& after.name == before.name
                    &&& after.vis == before.vis
                    &&& !after.is_excepted
                    &&& before.is_excepted ==> after.ty == before.ty
                    &&& !before.is_excepted ==> after.ty == wrap_optional(before.ty)
                        && admits_absent(after.ty)
                }
        }),
{
}

/// On a declaration with positional fields the optionality transform
/// succeeds and wraps the type of every field, marker or not, keeping the
/// count and the order of the fields.
pub proof fn lemma_optional_unnamed(decl: StructView)
    requires
        decl.shape == Shape::UnnamedFields,
        decl.fields.len() > 0,
    ensures
        optional_of(decl) is Ok,
        ({
            let made = optional_of(decl)->Ok_0;
            &&& made.shape == Shape::UnnamedFields
            &&& made.name == decl.name
            &&& made.vis == decl.vis
            &&& made.fields.len() == decl.fields.len()
            &&& forall|i: int|
                0 <= i < decl.fields.len() ==> (#[trigger] made.fields[i]).ty == wrap_optional(
                    decl.fields[i].ty,
                ) && made.fields[i].name is None && !made.fields[i].is_excepted
        }),
{
}

/// The invoking annotation never reaches the output of the optionality
/// transform, however often the input holds it; every other annotation
/// does, once, and in the order of the input.
pub proof fn lemma_invoking_annotation_stripped(decl: StructView)
    requires
        optional_of(decl) is Ok,
    ensures
        ({
            let kept = optional_of(decl)->Ok_0.attributes;
            let positions = kept_positions(
                decl.attributes,
                |a: AttributeView| !is_named(a, invoking_marker()),
            );
            &&& forall|j: int|
                0 <= j < kept.len() ==> !is_named(#[trigger] kept[j], invoking_marker())
            &&& kept.len() == positions.len()
            &&& forall|j: int|
                0 <= j < kept.len() ==> 0 <= #[trigger] positions[j] < decl.attributes.len()
                    && kept[j] == decl.attributes[positions[j]]
            &&& forall|j: int, k: int|
                0 <= j < k < positions.len() ==> positions[j] < positions[k]
            &&& forall|i: int|
                0 <= i < decl.attributes.len() && !is_named(
                    #[trigger] decl.attributes[i],
                    invoking_marker(),
                ) ==> positions.contains(i)
        }),
{
    let keep = |a: AttributeView| !is_named(a, invoking_marker());
    lemma_filter_keeps_order(decl.attributes, keep);
}

/// Stripping the invoking annotation is idempotent: a second pass removes
/// nothing.
pub proof fn lemma_stripping_is_idempotent(attributes: Seq<AttributeView>)
    ensures
        without_invoking(without_invoking(attributes)) == without_invoking(attributes),
{
    let keep = |a: AttributeView| !is_named(a, invoking_marker());
    let once = attributes.filter(keep);
    lemma_filter_of_kept(once, keep);
}

/// Filtering changes nothing where the predicate holds of every item.
proof fn lemma_filter_of_kept<A>(items: Seq<A>, keep: spec_fn(A) -> bool)
    requires
        forall|i: int| 0 <= i < items.len() ==> keep(#[trigger] items[i]),
    ensures
        items.filter(keep) == items,
    decreases items.len(),
{
    reveal(Seq::filter);
    if items.len() > 0 {
        let shorter = items.drop_last();
        lemma_filter_of_kept(shorter, keep);
    }
}

/// What the optionality transform emits is a well-formed declaration
/// with at least one field, so it always has a text and is never empty.
pub proof fn lemma_optional_output_well_formed(decl: StructView)
    requires
        optional_of(decl) is Ok,
    ensures
        optional_of(decl)->Ok_0.wf(),
        optional_of(decl)->Ok_0.fields.len() > 0,
        rendering_of(optional_of(decl)->Ok_0) is Ok,
{
}

} // verus!
