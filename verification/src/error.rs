//! Why a generator produced nothing.

use crate::decl::Shape;
use crate::text::owned;
use vstd::prelude::*;
use vstd::string::StringExecFns;

verus! {

/// The three generators.
#[derive(Clone, Copy, Debug, PartialEq, Eq, Structural)]
pub enum Transform {
    /// One read accessor per field.
    Accessors,
    /// One write mutator per field.
    Mutators,
    /// Every field's type made optional.
    Optional,
}

/// A failure of generation. It ends the invocation: nothing is emitted for
/// the declaration.
#[derive(Clone, Debug, PartialEq, Eq)]
pub enum GenError {
    /// The source text is not a struct declaration; `message` is the
    /// parser's.
    Syntax { message: String },
    /// The transform does not handle declarations of this shape.
    UnsupportedShape { transform: Transform, shape: Shape },
    /// The field at `index` of a declaration with named fields has no name.
    MalformedField { index: usize },
}

/// What a [`GenError`] holds, as mathematical values.
pub enum Failure {
    Syntax { message: Seq<char> },
    UnsupportedShape { transform: Transform, shape: Shape },
    MalformedField { index: int },
}

impl View for GenError {
    type V = Failure;

    open spec fn view(&self) -> Failure {
        match self {
            GenError::Syntax { message } => Failure::Syntax { message: message@ },
            GenError::UnsupportedShape { transform, shape } => Failure::UnsupportedShape {
                transform: *transform,
                shape: *shape,
            },
            GenError::MalformedField { index } => Failure::MalformedField { index: *index as int },
        }
    }
}

/// What a transform asks of a declaration, in words.
pub open spec fn requirement(transform: Transform) -> Seq<char> {
    match transform {
        Transform::Accessors => "AutoGetters can only be derived for structs with named fields"@,
        Transform::Mutators => "AutoSetters can only be derived for structs with named fields"@,
        Transform::Optional =>
            "Optional can only be derived for structs with named and unnamed fields"@,
    }
}

/// A shape, in words.
pub open spec fn shape_words(shape: Shape) -> Seq<char> {
    match shape {
        Shape::NamedFields => "named fields"@,
        Shape::UnnamedFields => "unnamed fields"@,
        Shape::NoFields => "no fields"@,
    }
}

/// The description of a failure, for whoever halts the build.
pub open spec fn description(failure: Failure) -> Seq<char> {
    match failure {
        Failure::Syntax { message } => message,
        Failure::UnsupportedShape { transform, shape } => requirement(transform)
            + ", but this struct has "@ + shape_words(shape),
        Failure::MalformedField { index } => "a field of a struct with named fields has no name"@,
    }
}

impl GenError {
    /// The description of the failure: for an unsupported shape, which
    /// shapes the transform handles and which one it met.
    pub fn describe(&self) -> (r: String)
        ensures
            r@ == description(self@),
    {
        match self {
            GenError::Syntax { message } => message.clone(),
            GenError::UnsupportedShape { transform, shape } => {
                let mut out = match transform {
                    Transform::Accessors => owned(
                        "AutoGetters can only be derived for structs with named fields",
                    ),
                    Transform::Mutators => owned(
                        "AutoSetters can only be derived for structs with named fields",
                    ),
                    Transform::Optional => owned(
                        "Optional can only be derived for structs with named and unnamed fields",
                    ),
                };
                out.append(", but this struct has ");
                match shape {
                    Shape::NamedFields => out.append("named fields"),
                    Shape::UnnamedFields => out.append("unnamed fields"),
                    Shape::NoFields => out.append("no fields"),
                }
                out
            },
            GenError::MalformedField { index: _ } => owned(
                "a field of a struct with named fields has no name",
            ),
        }
    }
}

} // verus!
