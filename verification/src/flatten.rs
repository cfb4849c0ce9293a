//! Flattening: from the tree of a declared type to the sequence of its
//! constructor tokens, outermost first.

use vstd::prelude::*;
use crate::descriptor::{shapes, TypeDescriptor, TypeShape};
use crate::error::{Failure, Shape, TranslationError};
use crate::types::{string_to_rust, RustToken, RustType};

verus! {

/// The values of a list of tokens, in the same order.
pub open spec fn rust_tokens(list: Seq<RustType>) -> Seq<RustToken> {
    Seq::new(list.len(), |i: int| list[i]@)
}

impl TypeShape {
    /// The tokens of the tree in depth-first order: a named type gives its
    /// own token and then the tokens of its arguments from left to right, a
    /// reference gives what it refers to and nothing of its own. The first
    /// form met that cannot be translated is the error.
    pub open spec fn flatten(self) -> Result<Seq<RustToken>, Shape>
        decreases self,
    {
        match self {
            TypeShape::Path { name, args } => match Self::flatten_all(args) {
                Ok(rest) => Ok(seq![RustToken::of_name(name)] + rest),
                Err(shape) => Err(shape),
            },
            TypeShape::Reference { elem } => elem.flatten(),
            TypeShape::Unsupported { shape } => Err(shape),
        }
    }

    /// The tokens of each tree of `args` in turn, one after the other.
    pub open spec fn flatten_all(args: Seq<TypeShape>) -> Result<Seq<RustToken>, Shape>
        decreases args,
    {
        if args.len() == 0 {
            Ok(Seq::empty())
        } else {
            match Self::flatten_all(args.drop_last()) {
                Err(shape) => Err(shape),
                Ok(front) => match args.last().flatten() {
                    Err(shape) => Err(shape),
                    Ok(back) => Ok(front + back),
                },
            }
        }
    }
}

/// What flattening returns for the field `field` when the trees give `flat`.
pub open spec fn flatten_outcome(
    field: Seq<char>,
    flat: Result<Seq<RustToken>, Shape>,
    out: Result<Vec<RustType>, TranslationError>,
) -> bool {
    match flat {
        Ok(tokens) => out matches Ok(list) && rust_tokens(list@) == tokens,
        Err(shape) => out matches Err(e) && e@ == (Failure::UnsupportedShape { field, shape }),
    }
}

/// Flattens the declared type of the field named `field`.
pub fn find_field_type(field: &str, field_type: &TypeDescriptor) -> (out: Result<
    Vec<RustType>,
    TranslationError,
>)
    ensures
        flatten_outcome(field@, field_type@.flatten(), out),
    decreases field_type,
{
    match field_type {
        TypeDescriptor::Path { name, args } => {
            let mut tokens: Vec<RustType> = Vec::new();
            tokens.push(string_to_rust(name.as_str()));
            match type_args(field, args) {
                Ok(mut rest) => {
                    assert(shapes(args@) == field_type@->Path_args);
                    let ghost tail = rust_tokens(rest@);
                    tokens.append(&mut rest);
                    assert(rust_tokens(tokens@) == seq![RustToken::of_name(name@)] + tail);
                    Ok(tokens)
                },
                Err(e) => {
                    Err(e)
                },
            }
        },
        TypeDescriptor::Reference { elem } => find_field_type(field, elem),
        TypeDescriptor::Unsupported { shape } => Err(
            TranslationError::UnsupportedShape { field: field.to_string(), shape: *shape },
        ),
    }
}

/// Flattens the type arguments of a named type, from left to right.
pub fn type_args(field: &str, args: &Vec<TypeDescriptor>) -> (out: Result<
    Vec<RustType>,
    TranslationError,
>)
    ensures
        flatten_outcome(field@, TypeShape::flatten_all(shapes(args@)), out),
    decreases args,
{
    let mut tokens: Vec<RustType> = Vec::new();
    let mut i: usize = 0;
    assert(rust_tokens(tokens@) == Seq::<RustToken>::empty());
    while i < args.len()
        invariant
            i <= args.len(),
            TypeShape::flatten_all(shapes(args@).take(i as int)) == Ok::<Seq<RustToken>, Shape>(
                rust_tokens(tokens@),
            ),
        decreases args.len() - i,
    {
        proof {
            assert(shapes(args@).take(i + 1).drop_last() == shapes(args@).take(i as int));
            lemma_flatten_all_prefix_error(shapes(args@), i + 1);
        }
        match find_field_type(field, &args[i]) {
            Ok(mut more) => {
                let ghost front = rust_tokens(tokens@);
                let ghost back = rust_tokens(more@);
                tokens.append(&mut more);
                assert(rust_tokens(tokens@) == front + back);
            },
            Err(e) => {
                return Err(e);
            },
        }
        i += 1;
    }
    assert(shapes(args@).take(i as int) == shapes(args@));
    Ok(tokens)
}

/// Once a prefix of `args` fails, the whole of `args` fails in the same way.
pub proof fn lemma_flatten_all_prefix_error(args: Seq<TypeShape>, n: int)
    requires
        0 <= n <= args.len(),
    ensures
        TypeShape::flatten_all(args.take(n)) matches Err(shape) ==> TypeShape::flatten_all(args)
            == Err::<Seq<RustToken>, Shape>(shape),
    decreases args.len() - n,
{
    if n < args.len() {
        let next = args.take(n + 1);
        assert(next.drop_last() == args.take(n));
        lemma_flatten_all_prefix_error(args, n + 1);
    } else {
        assert(args.take(n) == args);
    }
}

/// A named type without arguments flattens to exactly one token, the one
/// that its name stands for.
pub proof fn lemma_plain_name_one_token(name: Seq<char>)
    ensures
        (TypeShape::Path { name, args: Seq::empty() }).flatten() == Ok::<Seq<RustToken>, Shape>(
            seq![RustToken::of_name(name)],
        ),
{
    assert(TypeShape::flatten_all(Seq::empty()) == Ok::<Seq<RustToken>, Shape>(Seq::empty()));
    assert(seq![RustToken::of_name(name)] + Seq::<RustToken>::empty() == seq![
        RustToken::of_name(name),
    ]);
}

/// Layers of indirection add no token: a type behind any number of
/// references flattens exactly as the type itself does.
pub proof fn lemma_reference_transparent(ty: TypeShape, layers: nat)
    ensures
        ty.borrowed(layers).flatten() == ty.flatten(),
    decreases layers,
{
    if layers > 0 {
        lemma_reference_transparent(ty, (layers - 1) as nat);
    }
}

/// Flattening fails exactly when a form that cannot be translated occurs
/// somewhere in the tree, however deep; such a type never comes out as a
/// sequence of tokens.
pub proof fn lemma_unsupported_rejected(ty: TypeShape)
    ensures
        ty.has_unsupported() <==> ty.flatten() is Err,
    decreases ty,
{
    match ty {
        TypeShape::Path { name, args } => {
            lemma_unsupported_argument_rejected(args);
        },
        TypeShape::Reference { elem } => {
            lemma_unsupported_rejected(*elem);
        },
        TypeShape::Unsupported { shape } => {},
    }
}

/// A list of arguments fails to flatten exactly when one of them holds a form
/// that cannot be translated.
pub proof fn lemma_unsupported_argument_rejected(args: Seq<TypeShape>)
    ensures
        (exists|i: int| 0 <= i < args.len() && (#[trigger] args[i]).has_unsupported())
            <==> TypeShape::flatten_all(args) is Err,
    decreases args,
{
    if args.len() > 0 {
        let front = args.drop_last();
        lemma_unsupported_argument_rejected(front);
        lemma_unsupported_rejected(args.last());
        if exists|i: int| 0 <= i < args.len() && (#[trigger] args[i]).has_unsupported() {
            let i = choose|i: int| 0 <= i < args.len() && (#[trigger] args[i]).has_unsupported();
            if i < args.len() - 1 {
                assert(front[i].has_unsupported());
            }
        }
    }
}

} // verus!
