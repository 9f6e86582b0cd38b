//! What the generated members do, as a model: an instance of a struct is
//! the value that each of its fields holds, by field name.
//!
//! The text of an accessor returns `&self.field`, and the text of a
//! mutator assigns the converted argument to `self.field`; the two
//! functions below say the same of the model.

use crate::auto_setters::MutatorView;
use crate::getters::AccessorView;
use vstd::prelude::*;

verus! {

/// The value that an accessor hands out of an instance: what its field
/// holds at the time of the call, untouched.
pub open spec fn read_value<V>(accessor: AccessorView, instance: Map<Seq<char>, V>) -> V {
    instance[accessor.field]
}

/// The instance after a mutator is invoked with an argument whose
/// converted form is `converted`: its field holds that value, every other
/// field what it held.
pub open spec fn write_value<V>(
    mutator: MutatorView,
    instance: Map<Seq<char>, V>,
    converted: V,
) -> Map<Seq<char>, V> {
    instance.insert(mutator.field, converted)
}

} // verus!
