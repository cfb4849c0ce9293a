//! The Elm syntax of a declared type, stated on the tree of the type, and
//! its agreement with flattening followed by folding.

use vstd::prelude::*;
use crate::descriptor::TypeShape;
use crate::error::{Failure, Shape};
use crate::flatten::lemma_plain_name_one_token;
use crate::fold::fold;
use crate::elm_files::{field_line, field_lines, module_frame, FieldValue};
use crate::rename::{output_name, rename_among};
use crate::structure::{
    elm_module,
    elm_of,
    field_entries,
    field_entry,
    field_types,
    lemma_fields_keep_order,
    translate,
    FieldDecl,
};
use crate::types::{ElmToken, RustToken};

verus! {

impl TypeShape {
    /// The tree behind all layers of indirection at its top.
    pub open spec fn target(self) -> TypeShape
        decreases self,
    {
        match self {
            TypeShape::Reference { elem } => elem.target(),
            _ => self,
        }
    }

    /// Whether the tree is a named type without arguments, behind any number
    /// of references.
    pub open spec fn is_leaf(self) -> bool {
        self.target() matches TypeShape::Path { name, args } && args.len() == 0
    }

    /// The Elm constructor that the name of a type stands for.
    pub open spec fn constructor(name: Seq<char>) -> ElmToken {
        RustToken::of_name(name).to_elm()
    }

    /// Whether every named type in the tree has the arguments that its Elm
    /// constructor takes: none at all, or one for a constructor of one
    /// argument, or a key without arguments and a value for a constructor of
    /// two.
    pub open spec fn well_formed(self) -> bool
        decreases self,
    {
        match self {
            TypeShape::Path { name, args } => {
                if args.len() == 0 {
                    true
                } else if Self::constructor(name).arity() == 1 {
                    args.len() == 1 && args[0].well_formed()
                } else if Self::constructor(name).arity() == 2 {
                    args.len() == 2 && args[0].is_leaf() && args[0].well_formed()
                        && args[1].well_formed()
                } else {
                    false
                }
            },
            TypeShape::Reference { elem } => elem.well_formed(),
            TypeShape::Unsupported { shape } => false,
        }
    }

    /// The tree as an argument of a constructor: after a space where it is a
    /// single name, in parentheses where it is more.
    pub open spec fn as_argument(self) -> Seq<char>
        decreases self, 1nat,
    {
        if self.is_leaf() {
            " "@ + self.elm_syntax()
        } else {
            "("@ + self.elm_syntax() + ")"@
        }
    }

    /// The Elm type expression for a well-formed tree.
    pub open spec fn elm_syntax(self) -> Seq<char>
        decreases self, 0nat,
    {
        match self {
            TypeShape::Path { name, args } => {
                if args.len() == 0 {
                    Self::constructor(name).name()
                } else if args.len() == 1 {
                    Self::constructor(name).name() + args[0].as_argument()
                } else {
                    Self::constructor(name).name() + " "@ + args[0].elm_syntax()
                        + args[1].as_argument()
                }
            },
            TypeShape::Reference { elem } => elem.elm_syntax(),
            TypeShape::Unsupported { shape } => Seq::empty(),
        }
    }
}

/// Flattening a well-formed tree and folding the tokens never fails, and
/// gives the Elm syntax of the tree. The tree flattens to a single token
/// exactly when it is a single name.
pub proof fn lemma_well_formed_folds(ty: TypeShape)
    requires
        ty.well_formed(),
    ensures
        ty.flatten() matches Ok(tokens) && tokens.len() >= 1 && (tokens.len() == 1
            <==> ty.is_leaf()) && fold(elm_of(tokens)) == Some(ty.elm_syntax()),
    decreases ty,
{
    match ty {
        TypeShape::Path { name, args } => {
            let head = RustToken::of_name(name);
            let empty = Ok::<Seq<RustToken>, Shape>(Seq::empty());
            if args.len() == 0 {
                lemma_plain_name_one_token(name);
            } else if TypeShape::constructor(name).arity() == 1 {
                lemma_well_formed_folds(args[0]);
                let inner = args[0].flatten()->Ok_0;
                assert(TypeShape::flatten_all(args.drop_last()) == empty);
                assert(elm_of(seq![head] + inner).skip(1) == elm_of(inner));
                assert(ty.elm_syntax() == head.to_elm().name() + args[0].as_argument());
            } else {
                lemma_well_formed_folds(args[0]);
                lemma_well_formed_folds(args[1]);
                let key = args[0].flatten()->Ok_0;
                let inner = args[1].flatten()->Ok_0;
                let front = args.drop_last();
                assert(TypeShape::flatten_all(front.drop_last()) == empty);
                assert(TypeShape::flatten_all(front) == Ok::<Seq<RustToken>, Shape>(key));
                assert(TypeShape::flatten_all(args) == Ok::<Seq<RustToken>, Shape>(key + inner));
                assert(elm_of(seq![head] + (key + inner)).skip(2) == elm_of(inner));
                let start = head.to_elm().name() + " "@ + args[0].elm_syntax();
                let text = args[1].elm_syntax();
                assert(ty.elm_syntax() == start + args[1].as_argument());
                assert(start + "("@ + text + ")"@ == start + ("("@ + text + ")"@));
            }
        },
        TypeShape::Reference { elem } => {
            lemma_well_formed_folds(*elem);
        },
        TypeShape::Unsupported { shape } => {},
    }
}

/// Whether a declared field can be translated for certain: its type is
/// well formed and its attributes are accepted.
pub open spec fn field_accepted(field: FieldDecl) -> bool {
    field.ty.well_formed() && rename_among(field.attrs) is Ok
}

/// The lines that declare the fields of a record, stated on the declared
/// fields: each field under its output name, with the Elm syntax of its type.
pub open spec fn declared_lines(fields: Seq<FieldDecl>) -> Seq<char>
    decreases fields.len(),
{
    if fields.len() == 0 {
        Seq::empty()
    } else {
        declared_lines(fields.drop_last()) + field_line(
            fields.len() - 1,
            output_name(fields.last().ident, rename_among(fields.last().attrs)->Ok_0),
            fields.last().ty.elm_syntax(),
        )
    }
}

/// A structure whose fields are all accepted is translated without fail: no
/// malformed sequence comes up, and the module holds one line for each
/// field, in the order of the fields, with the Elm syntax of its type.
pub proof fn lemma_well_formed_structure(
    ident: Seq<char>,
    rename: Option<Seq<char>>,
    fields: Seq<FieldDecl>,
)
    requires
        forall|i: int| 0 <= i < fields.len() ==> field_accepted(#[trigger] fields[i]),
    ensures
        elm_module(ident, rename, fields) == Ok::<(Seq<char>, Seq<char>), Failure>(
            (
                output_name(ident, rename),
                module_frame(output_name(ident, rename), declared_lines(fields)),
            ),
        ),
{
    lemma_accepted_fields_translate(fields);
    lemma_fields_keep_order(fields);
    let entries = translate(fields)->Ok_0;
    lemma_accepted_fields_render(fields, entries, fields.len() as int);
    assert(fields.take(fields.len() as int) == fields);
    assert(entries.take(fields.len() as int) == entries);
}

/// Fields that are all accepted give entries: neither a type nor an
/// attribute is refused.
pub proof fn lemma_accepted_fields_translate(fields: Seq<FieldDecl>)
    requires
        forall|i: int| 0 <= i < fields.len() ==> field_accepted(#[trigger] fields[i]),
    ensures
        translate(fields) is Ok,
{
    lemma_accepted_types_flatten(fields);
    lemma_accepted_names_resolve(fields, field_types(fields)->Ok_0, fields.len() as int);
}

/// The types of accepted fields all flatten.
pub proof fn lemma_accepted_types_flatten(fields: Seq<FieldDecl>)
    requires
        forall|i: int| 0 <= i < fields.len() ==> field_accepted(#[trigger] fields[i]),
    ensures
        field_types(fields) is Ok,
    decreases fields.len(),
{
    if fields.len() > 0 {
        let front = fields.drop_last();
        assert forall|i: int| 0 <= i < front.len() implies field_accepted(#[trigger] front[i]) by {}
        lemma_accepted_types_flatten(front);
        lemma_well_formed_folds(fields.last().ty);
    }
}

/// The names of the first `n` accepted fields are all settled.
pub proof fn lemma_accepted_names_resolve(
    fields: Seq<FieldDecl>,
    types: Seq<Seq<RustToken>>,
    n: int,
)
    requires
        0 <= n <= fields.len(),
        forall|i: int| 0 <= i < fields.len() ==> field_accepted(#[trigger] fields[i]),
    ensures
        field_entries(fields, types, n) is Ok,
    decreases n,
{
    if n > 0 {
        lemma_accepted_names_resolve(fields, types, n - 1);
    }
}

/// The entries of the first `n` accepted fields render to the lines that
/// the declared fields give.
pub proof fn lemma_accepted_fields_render(
    fields: Seq<FieldDecl>,
    entries: Seq<FieldValue>,
    n: int,
)
    requires
        0 <= n <= fields.len(),
        entries.len() == fields.len(),
        forall|i: int| 0 <= i < fields.len() ==> field_accepted(#[trigger] fields[i]),
        forall|i: int|
            #![trigger entries[i]]
            0 <= i < fields.len() ==> field_entry(fields[i]) == Some(entries[i]),
    ensures
        field_lines(entries.take(n)) == Some(declared_lines(fields.take(n))),
    decreases n,
{
    if n > 0 {
        lemma_accepted_fields_render(fields, entries, n - 1);
        assert(entries.take(n).drop_last() == entries.take(n - 1));
        assert(fields.take(n).drop_last() == fields.take(n - 1));
        lemma_well_formed_folds(fields[n - 1].ty);
    }
}

} // verus!
