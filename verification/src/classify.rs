//! The field classifier: which annotations the generators act on.

use crate::decl::{lemma_views_of_push, views_of, Attribute, AttributeView};
use crate::text::{owned, owned_option, same_text};
use vstd::prelude::*;

verus! {

/// The name of the annotation that opts a field out of a transform.
pub open spec fn except_marker() -> Seq<char> {
    "except"@
}

/// The name of the annotation that invokes the optionality transform.
pub open spec fn invoking_marker() -> Seq<char> {
    "optional"@
}

/// Whether the annotation is named by exactly the identifier `word`.
pub open spec fn is_named(attribute: AttributeView, word: Seq<char>) -> bool {
    attribute.name == Some(word)
}

/// Whether some annotation of the list is the opt-out marker.
pub open spec fn carries_except(attributes: Seq<AttributeView>) -> bool {
    exists|i: int| 0 <= i < attributes.len() && is_named(#[trigger] attributes[i], except_marker())
}

/// The annotations that are not the invoking one, in their order.
pub open spec fn without_invoking(attributes: Seq<AttributeView>) -> Seq<AttributeView> {
    attributes.filter(|a: AttributeView| !is_named(a, invoking_marker()))
}

/// Whether the annotation is named by exactly the identifier `word`. The
/// match is case-sensitive; a qualified path is never a match.
pub fn attribute_is(attribute: &Attribute, word: &String) -> (r: bool)
    ensures
        r == is_named(attribute@, word@),
{
    match &attribute.name {
        Some(name) => same_text(name, word),
        None => false,
    }
}

/// Scans a field's annotations for the opt-out marker: `true` at the first
/// match, `false` when the list holds none. An absent marker is no error.
pub fn is_excepted(attributes: &Vec<Attribute>) -> (r: bool)
    ensures
        r == carries_except(views_of(attributes@)),
{
    let marker = owned("except");
    let mut i: usize = 0;
    while i < attributes.len()
        invariant
            marker@ == except_marker(),
            forall|k: int| 0 <= k < i ==> !is_named(#[trigger] views_of(attributes@)[k], except_marker()),
        decreases attributes.len() - i,
    {
        if attribute_is(&attributes[i], &marker) {
            assert(is_named(views_of(attributes@)[i as int], except_marker()));
            return true;
        }
        i += 1;
    }
    false
}

/// The annotations of a struct without the one that invoked the
/// optionality transform; the others keep their order.
pub fn strip_invoking(attributes: &Vec<Attribute>) -> (r: Vec<Attribute>)
    ensures
        views_of(r@) == without_invoking(views_of(attributes@)),
{
    let marker = owned("optional");
    let mut kept: Vec<Attribute> = Vec::new();
    let ghost keep = |a: AttributeView| !is_named(a, invoking_marker());
    let mut i: usize = 0;
    while i < attributes.len()
        invariant
            i <= attributes.len(),
            marker@ == invoking_marker(),
            keep == |a: AttributeView| !is_named(a, invoking_marker()),
            views_of(kept@) == views_of(attributes@).take(i as int).filter(keep),
        decreases attributes.len() - i,
    {
        let attribute = &attributes[i];
        proof {
            let all = views_of(attributes@);
            assert(all.take(i + 1) =~= all.take(i as int).push(all[i as int]));
            all.take(i as int).lemma_filter_push(all[i as int], keep);
        }
        if !attribute_is(attribute, &marker) {
            let copy = Attribute { name: owned_option(&attribute.name), text: attribute.text.clone() };
            kept.push(copy);
        }
        i += 1;
    }
    assert(views_of(attributes@).take(attributes.len() as int) =~= views_of(attributes@));
    kept
}

} // verus!
