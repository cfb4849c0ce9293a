//! Translation of a whole structure: from its declared fields to the Elm
//! module that declares its record alias.

use vstd::prelude::*;
use crate::descriptor::{TypeDescriptor, TypeShape};
use crate::elm_files::{
    field_values,
    file_name,
    generate_elm,
    module_file,
    module_text,
    FieldEntry,
    FieldValue,
};
use crate::error::{Failure, Shape, TranslationError};
use crate::flatten::{find_field_type, rust_tokens};
use crate::fold::elm_tokens;
use crate::rename::{
    attribute_values,
    find_name_for_field,
    output_name,
    rename_among,
    resolve_name,
    Attribute,
    AttributeValue,
};
use crate::types::{ElmToken, ElmTypes, RustToken, RustType};

verus! {

/// Mathematical value of a [`FieldInput`].
pub struct FieldDecl {
    pub ident: Seq<char>,
    pub attrs: Seq<AttributeValue>,
    pub ty: TypeShape,
}

/// A field as it is declared: its name, its attributes and its type.
#[derive(Debug, PartialEq, Eq)]
pub struct FieldInput {
    pub ident: String,
    pub attrs: Vec<Attribute>,
    pub ty: TypeDescriptor,
}

impl View for FieldInput {
    type V = FieldDecl;

    open spec fn view(&self) -> FieldDecl {
        FieldDecl { ident: self.ident@, attrs: attribute_values(self.attrs@), ty: self.ty@ }
    }
}

/// The values of a list of declared fields, in the same order.
pub open spec fn field_decls(list: Seq<FieldInput>) -> Seq<FieldDecl> {
    Seq::new(list.len(), |i: int| list[i]@)
}

/// The options that a structure is translated under.
#[derive(Debug, PartialEq, Eq)]
pub struct PathArg {
    /// The name of the record alias, where it differs from the structure's.
    pub rename: Option<String>,
    /// The directory under which the Elm modules are kept.
    pub path: String,
}

impl Default for PathArg {
    fn default() -> (opts: Self)
        ensures
            opts.rename is None,
            opts.path@ == Seq::<char>::empty(),
    {
        PathArg { rename: None, path: String::new() }
    }
}

impl PathArg {
    /// The rename that the options ask for.
    pub open spec fn rename_value(self) -> Option<Seq<char>> {
        match self.rename {
            Some(name) => Some(name@),
            None => None,
        }
    }

    /// Settles the options of a structure: those given with it where there
    /// are any, else no rename and the directory `fallback`; nothing where
    /// neither is there.
    pub fn or_fallback(given: Option<PathArg>, fallback: Option<String>) -> (opts: Option<PathArg>)
        ensures
            given is Some ==> opts == given,
            given is None ==> match fallback {
                Some(path) => opts == Some(PathArg { rename: None, path }),
                None => opts is None,
            },
    {
        match given {
            Some(opts) => Some(opts),
            None => match fallback {
                Some(path) => Some(PathArg { rename: None, path }),
                None => None,
            },
        }
    }
}

/// An Elm module as it is to be stored.
#[derive(Debug, PartialEq, Eq)]
pub struct ElmModule {
    /// The name of the module and of the record alias in it.
    pub name: String,
    /// The name of the file that holds the module.
    pub file: String,
    /// The text of the module.
    pub text: String,
}

/// The Elm tokens that take the place of host tokens, one for one.
pub open spec fn elm_of(tokens: Seq<RustToken>) -> Seq<ElmToken> {
    Seq::new(tokens.len(), |i: int| tokens[i].to_elm())
}

/// The values of a list of token lists, in the same order.
pub open spec fn token_lists(lists: Seq<Vec<RustType>>) -> Seq<Seq<RustToken>> {
    Seq::new(lists.len(), |i: int| rust_tokens(lists[i]@))
}

/// The flattened types of all fields, in the order of the fields; the error
/// of the first field whose type cannot be flattened.
pub open spec fn field_types(fields: Seq<FieldDecl>) -> Result<Seq<Seq<RustToken>>, Failure>
    decreases fields.len(),
{
    if fields.len() == 0 {
        Ok(Seq::empty())
    } else {
        match field_types(fields.drop_last()) {
            Err(e) => Err(e),
            Ok(front) => match fields.last().ty.flatten() {
                Err(shape) => Err(Failure::UnsupportedShape { field: fields.last().ident, shape }),
                Ok(tokens) => Ok(front.push(tokens)),
            },
        }
    }
}

/// The entries of the first `n` fields, whose flattened types are `types`:
/// each field under its output name, with the Elm tokens of its type; the
/// error of the first of them whose attributes are refused.
pub open spec fn field_entries(fields: Seq<FieldDecl>, types: Seq<Seq<RustToken>>, n: int) -> Result<
    Seq<FieldValue>,
    Failure,
>
    decreases n,
{
    if n <= 0 {
        Ok(Seq::empty())
    } else {
        match field_entries(fields, types, n - 1) {
            Err(e) => Err(e),
            Ok(front) => match rename_among(fields[n - 1].attrs) {
                Err(_) => Err(Failure::UnknownRename { field: fields[n - 1].ident }),
                Ok(rename) => Ok(
                    front.push(
                        FieldValue {
                            name: output_name(fields[n - 1].ident, rename),
                            tokens: elm_of(types[n - 1]),
                        },
                    ),
                ),
            },
        }
    }
}

/// The entries of a structure's fields, in the order of the fields. The
/// types of all fields are flattened before any name is settled, so an
/// unsupported type is reported before a refused attribute.
pub open spec fn translate(fields: Seq<FieldDecl>) -> Result<Seq<FieldValue>, Failure> {
    match field_types(fields) {
        Err(e) => Err(e),
        Ok(types) => field_entries(fields, types, fields.len() as int),
    }
}

/// The module for the structure `ident` with the fields `fields`, as a pair
/// of the module's name and its text.
pub open spec fn elm_module(
    ident: Seq<char>,
    rename: Option<Seq<char>>,
    fields: Seq<FieldDecl>,
) -> Result<(Seq<char>, Seq<char>), Failure> {
    match translate(fields) {
        Err(e) => Err(e),
        Ok(entries) => match module_text(output_name(ident, rename), entries) {
            Some(text) => Ok((output_name(ident, rename), text)),
            None => Err(Failure::MalformedSequence),
        },
    }
}

/// Flattens the declared type of every field.
pub fn find_field_types(fields: &Vec<FieldInput>) -> (out: Result<Vec<Vec<RustType>>, TranslationError>)
    ensures
        match field_types(field_decls(fields@)) {
            Ok(types) => out matches Ok(lists) && token_lists(lists@) == types,
            Err(failure) => out matches Err(e) && e@ == failure,
        },
{
    let ghost decls = field_decls(fields@);
    let mut types: Vec<Vec<RustType>> = Vec::new();
    let mut i: usize = 0;
    assert(token_lists(types@) == Seq::<Seq<RustToken>>::empty());
    while i < fields.len()
        invariant
            i <= fields.len(),
            decls == field_decls(fields@),
            field_types(decls.take(i as int)) == Ok::<Seq<Seq<RustToken>>, Failure>(
                token_lists(types@),
            ),
        decreases fields.len() - i,
    {
        proof {
            assert(decls.take(i + 1).drop_last() == decls.take(i as int));
            lemma_field_types_prefix_error(decls, i + 1);
        }
        let field = &fields[i];
        match find_field_type(field.ident.as_str(), &field.ty) {
            Ok(tokens) => {
                let ghost front = token_lists(types@);
                let ghost back = rust_tokens(tokens@);
                types.push(tokens);
                assert(token_lists(types@) == front.push(back));
            },
            Err(e) => {
                return Err(e);
            },
        }
        i += 1;
    }
    assert(decls.take(i as int) == decls);
    Ok(types)
}

/// Puts the Elm token in the place of every host token.
pub fn to_elm_types(tokens: &Vec<RustType>) -> (out: Vec<ElmTypes>)
    ensures
        elm_tokens(out@) == elm_of(rust_tokens(tokens@)),
{
    let mut out: Vec<ElmTypes> = Vec::new();
    let mut i: usize = 0;
    while i < tokens.len()
        invariant
            i <= tokens.len(),
            out@.len() == i,
            forall|k: int| 0 <= k < i ==> out@[k]@ == tokens@[k]@.to_elm(),
        decreases tokens.len() - i,
    {
        out.push(ElmTypes::from(&tokens[i]));
        i += 1;
    }
    out
}

/// Translates the fields of a structure into the entries of its record
/// alias, in the order in which the fields are declared.
pub fn collect_fields(fields: &Vec<FieldInput>) -> (out: Result<Vec<FieldEntry>, TranslationError>)
    ensures
        match translate(field_decls(fields@)) {
            Ok(entries) => out matches Ok(list) && field_values(list@) == entries,
            Err(failure) => out matches Err(e) && e@ == failure,
        },
{
    let ghost decls = field_decls(fields@);
    let lists = match find_field_types(fields) {
        Ok(found) => found,
        Err(e) => {
            return Err(e);
        },
    };
    let ghost types = token_lists(lists@);
    proof {
        lemma_field_types_len(decls);
    }
    let mut elm_fields: Vec<FieldEntry> = Vec::new();
    let mut i: usize = 0;
    assert(field_values(elm_fields@) == Seq::<FieldValue>::empty());
    while i < fields.len()
        invariant
            i <= fields.len(),
            decls == field_decls(fields@),
            types == token_lists(lists@),
            field_types(decls) == Ok::<Seq<Seq<RustToken>>, Failure>(types),
            lists@.len() == fields.len(),
            field_entries(decls, types, i as int) == Ok::<Seq<FieldValue>, Failure>(
                field_values(elm_fields@),
            ),
        decreases fields.len() - i,
    {
        proof {
            lemma_field_entries_prefix_error(decls, types, i + 1, fields.len() as int);
        }
        let field = &fields[i];
        let field_type = to_elm_types(&lists[i]);
        match find_name_for_field(field.ident.as_str(), &field.attrs) {
            Ok(name) => {
                let ghost front = field_values(elm_fields@);
                let entry = FieldEntry { name, tokens: field_type };
                let ghost back = entry@;
                elm_fields.push(entry);
                assert(field_values(elm_fields@) == front.push(back));
            },
            Err(e) => {
                return Err(e);
            },
        }
        i += 1;
    }
    Ok(elm_fields)
}

/// Translates the structure `ident` with the fields `fields` into its Elm
/// module. The module is named by the rename of `opts` where there is one,
/// else by `ident`.
pub fn generate_elm_types(ident: &str, opts: &PathArg, fields: &Vec<FieldInput>) -> (out: Result<
    ElmModule,
    TranslationError,
>)
    ensures
        match elm_module(ident@, opts.rename_value(), field_decls(fields@)) {
            Ok((name, text)) => out matches Ok(module) && module.name@ == name && module.file@
                == module_file(name) && module.text@ == text,
            Err(failure) => out matches Err(e) && e@ == failure,
        },
{
    let elm_fields = match collect_fields(fields) {
        Ok(list) => list,
        Err(e) => {
            return Err(e);
        },
    };
    let name = resolve_name(ident, &opts.rename);
    match generate_elm(name.as_str(), &elm_fields) {
        Ok(text) => {
            let file = file_name(name.as_str());
            Ok(ElmModule { name, file, text })
        },
        Err(e) => Err(e),
    }
}

/// Once the types of the first `n` fields fail to flatten, so do the types
/// of all fields, with the same error.
pub proof fn lemma_field_types_prefix_error(fields: Seq<FieldDecl>, n: int)
    requires
        0 <= n <= fields.len(),
    ensures
        field_types(fields.take(n)) matches Err(e) ==> field_types(fields) == Err::<
            Seq<Seq<RustToken>>,
            Failure,
        >(e),
    decreases fields.len() - n,
{
    if n < fields.len() {
        assert(fields.take(n + 1).drop_last() == fields.take(n));
        lemma_field_types_prefix_error(fields, n + 1);
    } else {
        assert(fields.take(n) == fields);
    }
}

/// Flattening the types of all fields gives one token list for each field.
pub proof fn lemma_field_types_len(fields: Seq<FieldDecl>)
    ensures
        field_types(fields) matches Ok(types) ==> types.len() == fields.len(),
    decreases fields.len(),
{
    if fields.len() > 0 {
        lemma_field_types_len(fields.drop_last());
    }
}

/// Once the first `n` fields are refused, so are the first `m` for any
/// larger `m`, with the same error.
pub proof fn lemma_field_entries_prefix_error(
    fields: Seq<FieldDecl>,
    types: Seq<Seq<RustToken>>,
    n: int,
    m: int,
)
    requires
        0 <= n <= m,
    ensures
        field_entries(fields, types, n) matches Err(e) ==> field_entries(fields, types, m) == Err::<
            Seq<FieldValue>,
            Failure,
        >(e),
    decreases m - n,
{
    if n < m {
        lemma_field_entries_prefix_error(fields, types, n + 1, m);
    }
}

/// The entry that a field gives rise to, where its type can be flattened
/// and its attributes are accepted.
pub open spec fn field_entry(field: FieldDecl) -> Option<FieldValue> {
    match (rename_among(field.attrs), field.ty.flatten()) {
        (Ok(rename), Ok(tokens)) => Some(
            FieldValue { name: output_name(field.ident, rename), tokens: elm_of(tokens) },
        ),
        _ => None,
    }
}

/// A structure is translated field by field, and the entries stand in the
/// order of the fields: there are as many entries as fields, and the entry
/// at each position is the one that the field at that position gives rise
/// to.
pub proof fn lemma_fields_keep_order(fields: Seq<FieldDecl>)
    ensures
        translate(fields) matches Ok(entries) ==> {
            &&& entries.len() == fields.len()
            &&& forall|i: int|
                #![trigger entries[i]]
                0 <= i < fields.len() ==> field_entry(fields[i]) == Some(entries[i])
        },
{
    if let Ok(types) = field_types(fields) {
        lemma_field_types_each(fields);
        lemma_field_entries_each(fields, types, fields.len() as int);
    }
}

/// The flattened types of all fields hold, at each position, the flattened
/// type of the field at that position.
pub proof fn lemma_field_types_each(fields: Seq<FieldDecl>)
    ensures
        field_types(fields) matches Ok(types) ==> {
            &&& types.len() == fields.len()
            &&& forall|i: int|
                #![trigger types[i]]
                0 <= i < fields.len() ==> fields[i].ty.flatten() == Ok::<Seq<RustToken>, Shape>(
                    types[i],
                )
        },
    decreases fields.len(),
{
    if fields.len() > 0 {
        lemma_field_types_each(fields.drop_last());
    }
}

/// The entry of a field whose flattened type is `tokens`, where its
/// attributes are accepted.
pub open spec fn entry_with(field: FieldDecl, tokens: Seq<RustToken>) -> Option<FieldValue> {
    match rename_among(field.attrs) {
        Ok(rename) => Some(
            FieldValue { name: output_name(field.ident, rename), tokens: elm_of(tokens) },
        ),
        Err(_) => None,
    }
}

/// The entries of the first `n` fields hold, at each position, the output
/// name of the field at that position and the Elm tokens of its type.
pub proof fn lemma_field_entries_each(fields: Seq<FieldDecl>, types: Seq<Seq<RustToken>>, n: int)
    requires
        0 <= n,
    ensures
        field_entries(fields, types, n) matches Ok(entries) ==> {
            &&& entries.len() == n
            &&& forall|i: int|
                #![trigger entries[i]]
                0 <= i < n ==> entry_with(fields[i], types[i]) == Some(entries[i])
        },
    decreases n,
{
    if n > 0 {
        lemma_field_entries_each(fields, types, n - 1);
    }
}

/// The module of a structure is named by the override where the options
/// give one, and by the structure's own name where they give none; the
/// record alias in it is declared under the same name.
pub proof fn lemma_module_name(ident: Seq<char>, rename: Option<Seq<char>>, fields: Seq<FieldDecl>)
    ensures
        elm_module(ident, rename, fields) matches Ok((name, text)) ==> {
            &&& rename matches Some(over) ==> name == over
            &&& rename is None ==> name == ident
            &&& translate(fields) matches Ok(entries)
            &&& module_text(name, entries) == Some(text)
        },
{
}

} // verus!
