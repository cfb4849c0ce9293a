//! The ways in which a translation can fail.

use vstd::prelude::*;
use vstd::string::StringExecFns;

verus! {

/// A form of type that has no counterpart in the Elm output.
#[derive(Debug, Clone, Copy, PartialEq, Eq, Structural)]
pub enum Shape {
    /// A fixed-size array, `[T; n]`.
    Array,
    /// A function type, `fn(A) -> B` or `Fn(A) -> B`.
    Function,
    /// A type inside an invisible group.
    Group,
    /// An existential type, `impl Trait`.
    Existential,
    /// A tuple, `(A, B)`.
    Tuple,
    /// A trait object, `dyn Trait`.
    TraitObject,
    /// Any other form that is neither a named type nor a reference.
    Other,
}

impl Shape {
    /// The words by which a message speaks of the form.
    pub open spec fn label(self) -> Seq<char> {
        match self {
            Shape::Array => "array"@,
            Shape::Function => "function"@,
            Shape::Group => "group"@,
            Shape::Existential => "impl trait"@,
            Shape::Tuple => "tuple"@,
            Shape::TraitObject => "trait object"@,
            Shape::Other => "unsupported"@,
        }
    }

    /// Gives the words by which a message speaks of the form.
    pub fn name(&self) -> (text: &'static str)
        ensures
            text@ == self.label(),
    {
        match self {
            Shape::Array => "array",
            Shape::Function => "function",
            Shape::Group => "group",
            Shape::Existential => "impl trait",
            Shape::Tuple => "tuple",
            Shape::TraitObject => "trait object",
            Shape::Other => "unsupported",
        }
    }
}

/// Mathematical value of a [`TranslationError`].
pub enum Failure {
    UnsupportedShape { field: Seq<char>, shape: Shape },
    MalformedSequence,
    UnknownRename { field: Seq<char> },
}

/// Why a field or a structure could not be translated.
#[derive(Debug, PartialEq, Eq)]
pub enum TranslationError {
    /// The declared type of `field` holds a form outside the supported ones.
    UnsupportedShape { field: String, shape: Shape },
    /// A token sequence in which some wrapper lacks its arguments, or a token
    /// that takes no argument is followed by more tokens.
    MalformedSequence,
    /// An attribute of `field` is not of the form that a rename is read from.
    UnknownRename { field: String },
}

impl View for TranslationError {
    type V = Failure;

    open spec fn view(&self) -> Failure {
        match self {
            TranslationError::UnsupportedShape { field, shape } => Failure::UnsupportedShape {
                field: field@,
                shape: *shape,
            },
            TranslationError::MalformedSequence => Failure::MalformedSequence,
            TranslationError::UnknownRename { field } => Failure::UnknownRename { field: field@ },
        }
    }
}

impl Failure {
    /// The message that tells a user of the failure.
    pub open spec fn message(self) -> Seq<char> {
        match self {
            Failure::UnsupportedShape { field, shape } => "Type `"@ + shape.label()
                + "` of field `"@ + field + "` not supported"@,
            Failure::MalformedSequence => "Malformed sequence of type constructors"@,
            Failure::UnknownRename { field } => "Invalid attribute #[Elm] on field `"@ + field
                + "`"@,
        }
    }
}

impl TranslationError {
    /// Writes the message that tells a user of the failure.
    pub fn message(&self) -> (text: String)
        ensures
            text@ == self@.message(),
    {
        match self {
            TranslationError::UnsupportedShape { field, shape } => "Type `".to_string().concat(
                shape.name(),
            ).concat("` of field `").concat(field.as_str()).concat("` not supported"),
            TranslationError::MalformedSequence => "Malformed sequence of type constructors".to_string(),
            TranslationError::UnknownRename { field } => "Invalid attribute #[Elm] on field `".to_string().concat(
                field.as_str(),
            ).concat("`"),
        }
    }
}

} // verus!
