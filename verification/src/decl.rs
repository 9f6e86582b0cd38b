//! The intermediate representation shared by the three generators: a struct
//! declaration reduced to the plain values the generators read, together with
//! the mathematical view of each part that the contracts are stated over.

use vstd::prelude::*;

verus! {

/// How the fields of a struct declaration are addressed. In a
/// [`StructDecl`] it records how the field list is written; the generators
/// go by [`StructDecl::effective_shape`].
#[derive(Clone, Copy, Debug, PartialEq, Eq, Structural)]
pub enum Shape {
    /// Fields addressed by identifier, `struct S { a: A }`.
    NamedFields,
    /// Fields addressed by position, `struct S(A);`.
    UnnamedFields,
    /// No fields: no field list, `struct S;`, or an empty one.
    NoFields,
}

/// An annotation attached to a struct or to one of its fields.
#[derive(Clone, Debug, PartialEq, Eq)]
pub struct Attribute {
    /// The identifier that names the annotation, when its path is a single
    /// plain identifier (`derive` in `#[derive(Debug)]`); `None` for any
    /// longer or qualified path.
    pub name: Option<String>,
    /// The annotation as it is written, brackets included.
    pub text: String,
}

/// What an [`Attribute`] holds, as mathematical values.
pub struct AttributeView {
    pub name: Option<Seq<char>>,
    pub text: Seq<char>,
}

impl View for Attribute {
    type V = AttributeView;

    open spec fn view(&self) -> AttributeView {
        AttributeView { name: self.name.deep_view(), text: self.text@ }
    }
}

/// One field of a struct declaration.
#[derive(Clone, Debug, PartialEq, Eq)]
pub struct FieldDecl {
    /// The field's identifier; absent for a positional field.
    pub name: Option<String>,
    /// The declared type. It is never interpreted, only referred to or wrapped.
    pub ty: String,
    /// The field's visibility as written; empty when none is written.
    pub vis: String,
    /// Whether the field carries the opt-out marker.
    pub is_excepted: bool,
}

/// What a [`FieldDecl`] holds, as mathematical values.
pub struct FieldView {
    pub name: Option<Seq<char>>,
    pub ty: Seq<char>,
    pub vis: Seq<char>,
    pub is_excepted: bool,
}

impl View for FieldDecl {
    type V = FieldView;

    open spec fn view(&self) -> FieldView {
        FieldView {
            name: self.name.deep_view(),
            ty: self.ty@,
            vis: self.vis@,
            is_excepted: self.is_excepted,
        }
    }
}

/// A struct declaration under transformation.
///
/// Generic parameters and `where` clauses are not part of it: the
/// generators neither read nor emit them.
#[derive(Clone, Debug, PartialEq, Eq)]
pub struct StructDecl {
    /// The struct's identifier.
    pub name: String,
    /// The struct's visibility as written; empty when none is written.
    pub vis: String,
    /// The annotations on the struct itself, in source order.
    pub attributes: Vec<Attribute>,
    /// The fields, in declaration order.
    pub fields: Vec<FieldDecl>,
    /// How the field list is written.
    pub shape: Shape,
}

/// What a [`StructDecl`] holds, as mathematical values.
pub struct StructView {
    pub name: Seq<char>,
    pub vis: Seq<char>,
    pub attributes: Seq<AttributeView>,
    pub fields: Seq<FieldView>,
    pub shape: Shape,
}

impl View for StructDecl {
    type V = StructView;

    open spec fn view(&self) -> StructView {
        StructView {
            name: self.name@,
            vis: self.vis@,
            attributes: views_of(self.attributes@),
            fields: views_of(self.fields@),
            shape: self.shape,
        }
    }
}

/// The views of the items of a sequence, in the same order.
pub open spec fn views_of<T: View>(items: Seq<T>) -> Seq<T::V> {
    items.map_values(|item: T| item@)
}

/// Appending an item appends its view.
pub proof fn lemma_views_of_push<T: View>(items: Seq<T>, item: T)
    ensures
        views_of(items.push(item)) == views_of(items).push(item@),
{
}

/// Whether every field of the sequence has a name.
pub open spec fn all_named(fields: Seq<FieldView>) -> bool {
    forall|i: int| 0 <= i < fields.len() ==> (#[trigger] fields[i]).name is Some
}

/// Whether `index` is the position of the first field that has no name.
pub open spec fn is_first_unnamed(fields: Seq<FieldView>, index: int) -> bool {
    &&& 0 <= index < fields.len()
    &&& fields[index].name is None
    &&& all_named(fields.take(index))
}

/// The position of the first field without a name.
pub open spec fn first_unnamed(fields: Seq<FieldView>) -> int {
    choose|index: int| is_first_unnamed(fields, index)
}

/// At most one position is that of the first field without a name.
pub proof fn lemma_first_unnamed_is(fields: Seq<FieldView>, index: int)
    requires
        is_first_unnamed(fields, index),
    ensures
        first_unnamed(fields) == index,
{
    let other = first_unnamed(fields);
    if other < index {
        assert(fields.take(index)[other].name is Some);
    }
    if index < other {
        assert(fields.take(other)[index].name is Some);
    }
}

impl StructView {
    /// Whether the declaration is one a parser can produce: the names of
    /// the fields agree with the way the field list is written, and a
    /// declaration without a field list has no fields.
    pub open spec fn wf(self) -> bool {
        match self.shape {
            Shape::NamedFields => all_named(self.fields),
            Shape::UnnamedFields => forall|i: int|
                0 <= i < self.fields.len() ==> (#[trigger] self.fields[i]).name is None,
            Shape::NoFields => self.fields.len() == 0,
        }
    }

    /// The shape that the generators go by. A declaration with no fields
    /// has the shape `NoFields`, whether it is written `struct S;`,
    /// `struct S {}` or `struct S();`; any other has the shape in which
    /// its field list is written.
    pub open spec fn effective_shape(self) -> Shape {
        if self.fields.len() == 0 {
            Shape::NoFields
        } else {
            self.shape
        }
    }
}

impl StructDecl {
    /// The shape that the generators go by: `NoFields` for a declaration
    /// with no fields, however its empty list is written, and otherwise
    /// the shape in which the field list is written.
    pub fn effective_shape(&self) -> (r: Shape)
        ensures
            r == self@.effective_shape(),
    {
        if self.fields.len() == 0 {
            Shape::NoFields
        } else {
            self.shape
        }
    }
}

} // verus!
