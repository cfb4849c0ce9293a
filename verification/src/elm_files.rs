//! The text of an Elm module that declares one record alias.

use vstd::prelude::*;
use vstd::string::StringExecFns;
use crate::error::TranslationError;
use crate::fold::{elm_tokens, fold, text_outcome, generate_elm_type};
use crate::types::{ElmToken, ElmTypes};

verus! {

/// Mathematical value of a [`FieldEntry`].
pub struct FieldValue {
    pub name: Seq<char>,
    pub tokens: Seq<ElmToken>,
}

/// One field of a record alias: its output name and the tokens of its type,
/// outermost first.
#[derive(Debug, PartialEq, Eq)]
pub struct FieldEntry {
    pub name: String,
    pub tokens: Vec<ElmTypes>,
}

impl View for FieldEntry {
    type V = FieldValue;

    open spec fn view(&self) -> FieldValue {
        FieldValue { name: self.name@, tokens: elm_tokens(self.tokens@) }
    }
}

/// The values of a list of fields, in the same order.
pub open spec fn field_values(list: Seq<FieldEntry>) -> Seq<FieldValue> {
    Seq::new(list.len(), |i: int| list[i]@)
}

/// The line that declares the field at position `index` of a record: the
/// first field follows the opening brace on its line, every later one starts
/// a line of its own with a comma.
pub open spec fn field_line(index: int, name: Seq<char>, ty: Seq<char>) -> Seq<char> {
    if index == 0 {
        name + ": "@ + ty + "\n"@
    } else {
        "\t, "@ + name + ": "@ + ty + "\n"@
    }
}

/// The lines of all fields, in the order of `fields`; `None` where the
/// tokens of some field are malformed.
pub open spec fn field_lines(fields: Seq<FieldValue>) -> Option<Seq<char>>
    decreases fields.len(),
{
    if fields.len() == 0 {
        Some(Seq::empty())
    } else {
        match (field_lines(fields.drop_last()), fold(fields.last().tokens)) {
            (Some(front), Some(ty)) => Some(
                front + field_line(fields.len() - 1, fields.last().name, ty),
            ),
            _ => None,
        }
    }
}

/// The text of the module `ident`, which declares the record alias `ident`
/// with the field lines `lines` between its braces.
pub open spec fn module_frame(ident: Seq<char>, lines: Seq<char>) -> Seq<char> {
    "module "@ + ident + " exposing (..)\n\n"@ + "type alias "@ + ident + " =\n\t{ "@ + lines
        + "\t}\n"@
}

/// The text of the module `ident`, which declares the record alias `ident`
/// with the given fields; `None` where the tokens of some field are
/// malformed.
pub open spec fn module_text(ident: Seq<char>, fields: Seq<FieldValue>) -> Option<Seq<char>> {
    match field_lines(fields) {
        Some(lines) => Some(module_frame(ident, lines)),
        None => None,
    }
}

/// The name of the file that holds the module `ident`.
pub open spec fn module_file(ident: Seq<char>) -> Seq<char> {
    ident + ".elm"@
}

/// Copies a token sequence in the opposite order.
pub fn reversed(tokens: &Vec<ElmTypes>) -> (work: Vec<ElmTypes>)
    ensures
        work@ == tokens@.reverse(),
{
    let mut work: Vec<ElmTypes> = Vec::new();
    let mut i: usize = tokens.len();
    while i > 0
        invariant
            i <= tokens.len(),
            work@.len() == tokens.len() - i,
            forall|k: int| 0 <= k < work@.len() ==> work@[k] == tokens@[tokens.len() - 1 - k],
        decreases i,
    {
        i -= 1;
        work.push(tokens[i].clone());
    }
    work
}

/// Renders the Elm type of one field from its tokens.
pub fn render_type(tokens: &Vec<ElmTypes>) -> (out: Result<String, TranslationError>)
    ensures
        text_outcome(fold(elm_tokens(tokens@)), out),
{
    let mut work = reversed(tokens);
    assert(elm_tokens(work@).reverse() == elm_tokens(tokens@));
    generate_elm_type(&mut work)
}

/// Gives the name of the file that holds the module `ident`.
pub fn file_name(ident: &str) -> (name: String)
    ensures
        name@ == module_file(ident@),
{
    ident.to_string().concat(".elm")
}

/// Writes out the module that declares the record alias `ident` with the
/// fields `elm_fields`, in their order.
pub fn generate_elm(ident: &str, elm_fields: &Vec<FieldEntry>) -> (out: Result<
    String,
    TranslationError,
>)
    ensures
        text_outcome(module_text(ident@, field_values(elm_fields@)), out),
{
    let ghost fields = field_values(elm_fields@);
    let mut text = "module ".to_string().concat(ident).concat(" exposing (..)\n\n").concat(
        "type alias ",
    ).concat(ident).concat(" =\n\t{ ");
    let ghost head = text@;
    let mut i: usize = 0;
    while i < elm_fields.len()
        invariant
            i <= elm_fields.len(),
            fields == field_values(elm_fields@),
            field_lines(fields.take(i as int)) matches Some(lines) && text@ == head + lines,
        decreases elm_fields.len() - i,
    {
        proof {
            assert(fields.take(i + 1).drop_last() == fields.take(i as int));
            lemma_field_lines_prefix(fields, i + 1);
        }
        let field = &elm_fields[i];
        match render_type(&field.tokens) {
            Ok(ty) => {
                if i > 0 {
                    text = text.concat("\t, ");
                }
                text = text.concat(field.name.as_str()).concat(": ").concat(ty.as_str()).concat(
                    "\n",
                );
            },
            Err(e) => {
                return Err(e);
            },
        }
        i += 1;
    }
    assert(fields.take(i as int) == fields);
    Ok(text.concat("\t}\n"))
}

/// The lines of the first `n` fields stand at the start of the lines of all
/// fields, whatever follows them; and where the first `n` fields cannot be
/// rendered, neither can the whole list.
pub proof fn lemma_field_lines_prefix(fields: Seq<FieldValue>, n: int)
    requires
        0 <= n <= fields.len(),
    ensures
        field_lines(fields.take(n)) is None ==> field_lines(fields) is None,
        field_lines(fields) matches Some(all) ==> field_lines(fields.take(n)) matches Some(first)
            && first.is_prefix_of(all),
    decreases fields.len() - n,
{
    if n < fields.len() {
        assert(fields.take(n + 1).drop_last() == fields.take(n));
        lemma_field_lines_prefix(fields, n + 1);
    } else {
        assert(fields.take(n) == fields);
    }
}

} // verus!
