//! Output names: the declared name of a field or structure, or the name that
//! an `elm` attribute puts in its place.

use vstd::prelude::*;
use crate::error::{Failure, TranslationError};

verus! {

/// Mathematical value of a [`Literal`].
pub enum LiteralValue {
    Str(Seq<char>),
    Other,
}

/// A literal inside an attribute.
#[derive(Debug, PartialEq, Eq)]
pub enum Literal {
    /// A string literal, with the text that it denotes.
    Str(String),
    /// A literal of any other kind.
    Other,
}

impl View for Literal {
    type V = LiteralValue;

    open spec fn view(&self) -> LiteralValue {
        match self {
            Literal::Str(text) => LiteralValue::Str(text@),
            Literal::Other => LiteralValue::Other,
        }
    }
}

/// Mathematical value of a [`MetaItem`]: a finite tree.
pub enum MetaTree {
    Word { name: Seq<char> },
    NameValue { name: Seq<char>, value: LiteralValue },
    List { name: Seq<char>, nested: Seq<MetaTree> },
    Literal { value: LiteralValue },
}

/// The content of an attribute, or one item of a list in it.
#[derive(Debug, PartialEq, Eq)]
pub enum MetaItem {
    /// A bare name, as in `#[elm]`.
    Word { name: String },
    /// A name with a value, as in `rename = "id"`.
    NameValue { name: String, value: Literal },
    /// A name with a list of items, as in `elm(rename = "id")`.
    List { name: String, nested: Vec<MetaItem> },
    /// A literal that stands alone in a list.
    Literal { value: Literal },
}

impl MetaItem {
    /// The tree that this item stands for.
    pub open spec fn tree(self) -> MetaTree
        decreases self,
    {
        match self {
            MetaItem::Word { name } => MetaTree::Word { name: name@ },
            MetaItem::NameValue { name, value } => MetaTree::NameValue { name: name@, value: value@ },
            MetaItem::List { name, nested } => MetaTree::List {
                name: name@,
                nested: Seq::new(
                    nested@.len(),
                    |i: int|
                        if 0 <= i < nested@.len() {
                            nested[i].tree()
                        } else {
                            MetaTree::Literal { value: LiteralValue::Other }
                        },
                ),
            },
            MetaItem::Literal { value } => MetaTree::Literal { value: value@ },
        }
    }
}

impl View for MetaItem {
    type V = MetaTree;

    open spec fn view(&self) -> MetaTree {
        self.tree()
    }
}

/// The trees of a list of items, in the same order.
pub open spec fn meta_trees(list: Seq<MetaItem>) -> Seq<MetaTree> {
    Seq::new(list.len(), |i: int| list[i]@)
}

/// Mathematical value of an [`Attribute`].
pub struct AttributeValue {
    pub path: Seq<char>,
    pub meta: Option<MetaTree>,
}

/// One attribute of a field.
#[derive(Debug, PartialEq, Eq)]
pub struct Attribute {
    /// The path that the attribute is written under, such as `elm`.
    pub path: String,
    /// What the attribute holds, where that reads as a meta item.
    pub meta: Option<MetaItem>,
}

impl View for Attribute {
    type V = AttributeValue;

    open spec fn view(&self) -> AttributeValue {
        AttributeValue {
            path: self.path@,
            meta: match self.meta {
                Some(item) => Some(item@),
                None => None,
            },
        }
    }
}

/// The values of a list of attributes, in the same order.
pub open spec fn attribute_values(list: Seq<Attribute>) -> Seq<AttributeValue> {
    Seq::new(list.len(), |i: int| list[i]@)
}

/// The rename that a list of meta items asks for, read from left to right:
/// the value of the first `rename = ".."`, or what the first nested list asks
/// for. `Err` where a literal stands alone in the list, or where the value of
/// the rename is not a string.
pub open spec fn rename_in(items: Seq<MetaTree>) -> Result<Option<Seq<char>>, ()>
    decreases items,
{
    if items.len() == 0 {
        Ok(None)
    } else {
        match items[0] {
            MetaTree::Word { name } => rename_in(items.skip(1)),
            MetaTree::NameValue { name, value } => if name == "rename"@ {
                match value {
                    LiteralValue::Str(text) => Ok(Some(text)),
                    LiteralValue::Other => Err(()),
                }
            } else {
                rename_in(items.skip(1))
            },
            MetaTree::List { name, nested } => rename_in(nested),
            MetaTree::Literal { value } => Err(()),
        }
    }
}

/// The rename that the attributes of a field ask for. Only attributes under
/// the path `elm` count, each must hold a list, and the last of them decides.
pub open spec fn rename_among(attrs: Seq<AttributeValue>) -> Result<Option<Seq<char>>, ()>
    decreases attrs.len(),
{
    if attrs.len() == 0 {
        Ok(None)
    } else {
        match rename_among(attrs.drop_last()) {
            Err(_) => Err(()),
            Ok(earlier) => if attrs.last().path != "elm"@ {
                Ok(earlier)
            } else {
                match attrs.last().meta {
                    Some(MetaTree::List { name, nested }) => rename_in(nested),
                    _ => Err(()),
                }
            },
        }
    }
}

/// The name under which something is written out: the override where there
/// is one, else the declared name.
pub open spec fn output_name(declared: Seq<char>, rename: Option<Seq<char>>) -> Seq<char> {
    match rename {
        Some(name) => name,
        None => declared,
    }
}

/// Gives the text of a string literal, and nothing for any other literal.
pub fn lit_to_string(lit: &Literal) -> (text: Option<String>)
    ensures
        match lit@ {
            LiteralValue::Str(s) => text matches Some(t) && t@ == s,
            LiteralValue::Other => text is None,
        },
{
    match lit {
        Literal::Str(s) => Some(s.clone()),
        Literal::Other => None,
    }
}

/// Picks the output name: `rename` where it is given, else `declared`.
pub fn resolve_name(declared: &str, rename: &Option<String>) -> (name: String)
    ensures
        name@ == output_name(
            declared@,
            match rename {
                Some(r) => Some(r@),
                None => None,
            },
        ),
{
    match rename {
        Some(r) => r.clone(),
        None => declared.to_string(),
    }
}

/// What reading a rename returns for the field `field` when the attributes
/// give `found`.
pub open spec fn rename_outcome(
    field: Seq<char>,
    found: Result<Option<Seq<char>>, ()>,
    out: Result<Option<String>, TranslationError>,
) -> bool {
    match found {
        Ok(Some(name)) => out matches Ok(Some(s)) && s@ == name,
        Ok(None) => out matches Ok(None),
        Err(_) => out matches Err(e) && e@ == (Failure::UnknownRename { field }),
    }
}

/// Reads the rename that a list of meta items asks for.
pub fn find_field_name(field_ident: &str, meta_items: &Vec<MetaItem>) -> (out: Result<
    Option<String>,
    TranslationError,
>)
    ensures
        rename_outcome(field_ident@, rename_in(meta_trees(meta_items@)), out),
    decreases meta_items,
{
    let ghost items = meta_trees(meta_items@);
    let mut i: usize = 0;
    assert(items.skip(0) == items);
    while i < meta_items.len()
        invariant
            i <= meta_items.len(),
            items == meta_trees(meta_items@),
            rename_in(items) == rename_in(items.skip(i as int)),
        decreases meta_items.len() - i,
    {
        proof {
            assert(items.skip(i as int).skip(1) == items.skip(i + 1));
        }
        match &meta_items[i] {
            MetaItem::Word { name } => {},
            MetaItem::NameValue { name, value } => {
                if name.as_str().eq("rename") {
                    return match lit_to_string(value) {
                        Some(text) => Ok(Some(text)),
                        None => Err(
                            TranslationError::UnknownRename { field: field_ident.to_string() },
                        ),
                    };
                }
            },
            MetaItem::List { name, nested } => {
                assert(meta_trees(nested@) == meta_items[i as int]@->List_nested);
                return find_field_name(field_ident, nested);
            },
            MetaItem::Literal { value } => {
                return Err(TranslationError::UnknownRename { field: field_ident.to_string() });
            },
        }
        i += 1;
    }
    Ok(None)
}

/// Gives the output name of a field from its declared name and attributes.
pub fn find_name_for_field(field_ident: &str, attrs: &Vec<Attribute>) -> (out: Result<
    String,
    TranslationError,
>)
    ensures
        match rename_among(attribute_values(attrs@)) {
            Ok(rename) => out matches Ok(name) && name@ == output_name(field_ident@, rename),
            Err(_) => out matches Err(e) && e@ == (Failure::UnknownRename { field: field_ident@ }),
        },
{
    let ghost values = attribute_values(attrs@);
    let mut rename: Option<String> = None;
    let mut i: usize = 0;
    while i < attrs.len()
        invariant
            i <= attrs.len(),
            values == attribute_values(attrs@),
            rename_among(values.take(i as int)) == Ok::<Option<Seq<char>>, ()>(
                match rename {
                    Some(r) => Some(r@),
                    None => None,
                },
            ),
        decreases attrs.len() - i,
    {
        proof {
            assert(values.take(i + 1).drop_last() == values.take(i as int));
            lemma_rename_among_prefix_error(values, i + 1);
        }
        let attr = &attrs[i];
        if attr.path.as_str().eq("elm") {
            match &attr.meta {
                Some(MetaItem::List { name, nested }) => {
                    assert(meta_trees(nested@) == attr@.meta->Some_0->List_nested);
                    match find_field_name(field_ident, nested) {
                        Ok(found) => {
                            rename = found;
                        },
                        Err(e) => {
                            return Err(e);
                        },
                    }
                },
                _ => {
                    return Err(TranslationError::UnknownRename { field: field_ident.to_string() });
                },
            }
        }
        i += 1;
    }
    assert(values.take(i as int) == values);
    Ok(resolve_name(field_ident, &rename))
}

/// An override takes the place of the declared name as it stands; without
/// one the declared name is kept as it stands.
pub proof fn lemma_rename_precedence(declared: Seq<char>, rename: Seq<char>)
    ensures
        output_name(declared, Some(rename)) == rename,
        output_name(declared, None) == declared,
{
}

/// Once the attributes up to some point are refused, so is the whole list.
pub proof fn lemma_rename_among_prefix_error(attrs: Seq<AttributeValue>, n: int)
    requires
        0 <= n <= attrs.len(),
    ensures
        rename_among(attrs.take(n)) is Err ==> rename_among(attrs) is Err,
    decreases attrs.len() - n,
{
    if n < attrs.len() {
        assert(attrs.take(n + 1).drop_last() == attrs.take(n));
        lemma_rename_among_prefix_error(attrs, n + 1);
    } else {
        assert(attrs.take(n) == attrs);
    }
}

} // verus!
