//! Translation of nested, parameterized type descriptions into Elm type
//! syntax, and rendering of one Elm record alias per described structure.
//!
//! A declared type is given as a [`TypeDescriptor`]. It is flattened into a
//! sequence of constructor tokens, outermost first ([`find_field_type`]);
//! the tokens are folded back into Elm syntax ([`generate_elm_type`]); and
//! the fields of a structure are written out as one Elm module
//! ([`generate_elm_types`]).

pub mod descriptor;
pub mod elm_files;
pub mod error;
pub mod flatten;
pub mod fold;
pub mod rename;
pub mod structure;
pub mod syntax;
pub mod text;
pub mod types;

pub use descriptor::TypeDescriptor;
pub use elm_files::{file_name, generate_elm, render_type, reversed, FieldEntry};
pub use error::{Shape, TranslationError};
pub use flatten::{find_field_type, type_args};
pub use fold::generate_elm_type;
pub use rename::{
    find_field_name, find_name_for_field, lit_to_string, resolve_name, Attribute, Literal, MetaItem,
};
pub use structure::{
    collect_fields, find_field_types, generate_elm_types, to_elm_types, ElmModule, FieldInput,
    PathArg,
};
pub use types::{string_to_rust, ElmTypes, RustType};
