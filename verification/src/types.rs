//! Constructor tokens: one tag per structural layer of a type, on the host
//! side ([`RustType`]) and on the Elm side ([`ElmTypes`]).

use vstd::prelude::*;

verus! {

/// Mathematical value of an [`ElmTypes`] token.
pub enum ElmToken {
    Bool,
    String,
    Int,
    Float,
    Char,
    List,
    Dict,
    Maybe,
    Result,
    Unknown(Seq<char>),
}

/// One layer of an Elm type expression.
#[derive(Debug, PartialEq, Eq)]
pub enum ElmTypes {
    Bool,
    String,
    Int,
    Float,
    Char,
    List,
    Dict,
    Maybe,
    Result,
    Unknown(String),
}

/// Mathematical value of a [`RustType`] token.
pub enum RustToken {
    Char,
    Bool,
    I8,
    I16,
    I32,
    I64,
    ISize,
    U8,
    U16,
    U32,
    U64,
    USize,
    F32,
    F64,
    String,
    Vec,
    HashMap,
    Option,
    Result,
    Unknown(Seq<char>),
}

/// One layer of a host type: the name of a primitive or container, or any
/// other name kept verbatim.
#[derive(Debug, PartialEq, Eq)]
pub enum RustType {
    Char,
    Bool,
    I8,
    I16,
    I32,
    I64,
    ISize,
    U8,
    U16,
    U32,
    U64,
    USize,
    F32,
    F64,
    String,
    Vec,
    HashMap,
    Option,
    Result,
    Unknown(String),
}

impl View for ElmTypes {
    type V = ElmToken;

    open spec fn view(&self) -> ElmToken {
        match self {
            ElmTypes::Bool => ElmToken::Bool,
            ElmTypes::String => ElmToken::String,
            ElmTypes::Int => ElmToken::Int,
            ElmTypes::Float => ElmToken::Float,
            ElmTypes::Char => ElmToken::Char,
            ElmTypes::List => ElmToken::List,
            ElmTypes::Dict => ElmToken::Dict,
            ElmTypes::Maybe => ElmToken::Maybe,
            ElmTypes::Result => ElmToken::Result,
            ElmTypes::Unknown(name) => ElmToken::Unknown(name@),
        }
    }
}

impl View for RustType {
    type V = RustToken;

    open spec fn view(&self) -> RustToken {
        match self {
            RustType::Char => RustToken::Char,
            RustType::Bool => RustToken::Bool,
            RustType::I8 => RustToken::I8,
            RustType::I16 => RustToken::I16,
            RustType::I32 => RustToken::I32,
            RustType::I64 => RustToken::I64,
            RustType::ISize => RustToken::ISize,
            RustType::U8 => RustToken::U8,
            RustType::U16 => RustToken::U16,
            RustType::U32 => RustToken::U32,
            RustType::U64 => RustToken::U64,
            RustType::USize => RustToken::USize,
            RustType::F32 => RustToken::F32,
            RustType::F64 => RustToken::F64,
            RustType::String => RustToken::String,
            RustType::Vec => RustToken::Vec,
            RustType::HashMap => RustToken::HashMap,
            RustType::Option => RustToken::Option,
            RustType::Result => RustToken::Result,
            RustType::Unknown(name) => RustToken::Unknown(name@),
        }
    }
}

impl ElmToken {
    /// The text that stands for this token in Elm source.
    pub open spec fn name(self) -> Seq<char> {
        match self {
            ElmToken::Bool => "bool"@,
            ElmToken::String => "String"@,
            ElmToken::Int => "Int"@,
            ElmToken::Float => "Float"@,
            ElmToken::Char => "Char"@,
            ElmToken::List => "List"@,
            ElmToken::Dict => "Dict"@,
            ElmToken::Maybe => "Maybe"@,
            ElmToken::Result => "Result"@,
            ElmToken::Unknown(name) => name,
        }
    }
}

impl RustToken {
    /// The name under which this token is written in host source.
    pub open spec fn name(self) -> Seq<char> {
        match self {
            RustToken::Char => "char"@,
            RustToken::Bool => "bool"@,
            RustToken::I8 => "i8"@,
            RustToken::I16 => "i16"@,
            RustToken::I32 => "i32"@,
            RustToken::I64 => "i64"@,
            RustToken::ISize => "isize"@,
            RustToken::U8 => "u8"@,
            RustToken::U16 => "u16"@,
            RustToken::U32 => "u32"@,
            RustToken::U64 => "u64"@,
            RustToken::USize => "usize"@,
            RustToken::F32 => "f32"@,
            RustToken::F64 => "f64"@,
            RustToken::String => "String"@,
            RustToken::Vec => "Vec"@,
            RustToken::HashMap => "HashMap"@,
            RustToken::Option => "Option"@,
            RustToken::Result => "Result"@,
            RustToken::Unknown(name) => name,
        }
    }

    /// The token that a type name stands for. A name outside the table is
    /// kept as it is.
    pub open spec fn of_name(name: Seq<char>) -> RustToken {
        if name == "char"@ {
            RustToken::Char
        } else if name == "bool"@ {
            RustToken::Bool
        } else if name == "i8"@ {
            RustToken::I8
        } else if name == "i16"@ {
            RustToken::I16
        } else if name == "i32"@ {
            RustToken::I32
        } else if name == "i64"@ {
            RustToken::I64
        } else if name == "isize"@ {
            RustToken::ISize
        } else if name == "u8"@ {
            RustToken::U8
        } else if name == "u16"@ {
            RustToken::U16
        } else if name == "u32"@ {
            RustToken::U32
        } else if name == "u64"@ {
            RustToken::U64
        } else if name == "usize"@ {
            RustToken::USize
        } else if name == "f32"@ {
            RustToken::F32
        } else if name == "f64"@ {
            RustToken::F64
        } else if name == "String"@ {
            RustToken::String
        } else if name == "Vec"@ {
            RustToken::Vec
        } else if name == "HashMap"@ {
            RustToken::HashMap
        } else if name == "Option"@ {
            RustToken::Option
        } else if name == "Result"@ {
            RustToken::Result
        } else {
            RustToken::Unknown(name)
        }
    }

    /// The Elm token that takes the place of this host token: every integer
    /// width becomes `Int`, both float widths become `Float`, the containers
    /// become their Elm counterparts, and an unknown name stays as it is.
    pub open spec fn to_elm(self) -> ElmToken {
        match self {
            RustToken::Char => ElmToken::Char,
            RustToken::Bool => ElmToken::Bool,
            RustToken::I8 => ElmToken::Int,
            RustToken::I16 => ElmToken::Int,
            RustToken::I32 => ElmToken::Int,
            RustToken::I64 => ElmToken::Int,
            RustToken::ISize => ElmToken::Int,
            RustToken::U8 => ElmToken::Int,
            RustToken::U16 => ElmToken::Int,
            RustToken::U32 => ElmToken::Int,
            RustToken::U64 => ElmToken::Int,
            RustToken::USize => ElmToken::Int,
            RustToken::F32 => ElmToken::Float,
            RustToken::F64 => ElmToken::Float,
            RustToken::String => ElmToken::String,
            RustToken::Vec => ElmToken::List,
            RustToken::HashMap => ElmToken::Dict,
            RustToken::Option => ElmToken::Maybe,
            RustToken::Result => ElmToken::Result,
            RustToken::Unknown(name) => ElmToken::Unknown(name),
        }
    }
}

impl ElmTypes {
    /// Renders the token as Elm source text.
    pub fn elm_type(&self) -> (text: String)
        ensures
            text@ == self@.name(),
    {
        match self {
            ElmTypes::Bool => "bool".to_string(),
            ElmTypes::String => "String".to_string(),
            ElmTypes::Int => "Int".to_string(),
            ElmTypes::Float => "Float".to_string(),
            ElmTypes::Char => "Char".to_string(),
            ElmTypes::List => "List".to_string(),
            ElmTypes::Dict => "Dict".to_string(),
            ElmTypes::Maybe => "Maybe".to_string(),
            ElmTypes::Result => "Result".to_string(),
            ElmTypes::Unknown(value) => value.clone(),
        }
    }
}

impl RustType {
    /// Gives the name under which the token is written in host source.
    pub fn rust_type(&self) -> (text: String)
        ensures
            text@ == self@.name(),
    {
        match self {
            RustType::Char => "char".to_string(),
            RustType::Bool => "bool".to_string(),
            RustType::I8 => "i8".to_string(),
            RustType::I16 => "i16".to_string(),
            RustType::I32 => "i32".to_string(),
            RustType::I64 => "i64".to_string(),
            RustType::ISize => "isize".to_string(),
            RustType::U8 => "u8".to_string(),
            RustType::U16 => "u16".to_string(),
            RustType::U32 => "u32".to_string(),
            RustType::U64 => "u64".to_string(),
            RustType::USize => "usize".to_string(),
            RustType::F32 => "f32".to_string(),
            RustType::F64 => "f64".to_string(),
            RustType::String => "String".to_string(),
            RustType::Vec => "Vec".to_string(),
            RustType::HashMap => "HashMap".to_string(),
            RustType::Option => "Option".to_string(),
            RustType::Result => "Result".to_string(),
            RustType::Unknown(value) => value.clone(),
        }
    }
}

/// Looks a type name up in the table of primitives and containers.
pub fn string_to_rust(input: &str) -> (token: RustType)
    ensures
        token@ == RustToken::of_name(input@),
{
    if input.eq("char") {
        RustType::Char
    } else if input.eq("bool") {
        RustType::Bool
    } else if input.eq("i8") {
        RustType::I8
    } else if input.eq("i16") {
        RustType::I16
    } else if input.eq("i32") {
        RustType::I32
    } else if input.eq("i64") {
        RustType::I64
    } else if input.eq("isize") {
        RustType::ISize
    } else if input.eq("u8") {
        RustType::U8
    } else if input.eq("u16") {
        RustType::U16
    } else if input.eq("u32") {
        RustType::U32
    } else if input.eq("u64") {
        RustType::U64
    } else if input.eq("usize") {
        RustType::USize
    } else if input.eq("f32") {
        RustType::F32
    } else if input.eq("f64") {
        RustType::F64
    } else if input.eq("String") {
        RustType::String
    } else if input.eq("Vec") {
        RustType::Vec
    } else if input.eq("HashMap") {
        RustType::HashMap
    } else if input.eq("Option") {
        RustType::Option
    } else if input.eq("Result") {
        RustType::Result
    } else {
        RustType::Unknown(input.to_string())
    }
}

impl<'a> vstd::std_specs::convert::FromSpecImpl<&'a str> for RustType {
    open spec fn obeys_from_spec() -> bool {
        false
    }

    open spec fn from_spec(input: &'a str) -> RustType {
        choose|token: RustType| token@ == RustToken::of_name(input@)
    }
}

impl<'a> From<&'a str> for RustType {
    fn from(input: &'a str) -> (token: Self)
        ensures
            token@ == RustToken::of_name(input@),
    {
        string_to_rust(input)
    }
}

impl<'a> vstd::std_specs::convert::FromSpecImpl<&'a RustType> for ElmTypes {
    open spec fn obeys_from_spec() -> bool {
        true
    }

    open spec fn from_spec(input: &'a RustType) -> ElmTypes {
        match input {
            RustType::Char => ElmTypes::Char,
            RustType::Bool => ElmTypes::Bool,
            RustType::I8 => ElmTypes::Int,
            RustType::I16 => ElmTypes::Int,
            RustType::I32 => ElmTypes::Int,
            RustType::I64 => ElmTypes::Int,
            RustType::ISize => ElmTypes::Int,
            RustType::U8 => ElmTypes::Int,
            RustType::U16 => ElmTypes::Int,
            RustType::U32 => ElmTypes::Int,
            RustType::U64 => ElmTypes::Int,
            RustType::USize => ElmTypes::Int,
            RustType::F32 => ElmTypes::Float,
            RustType::F64 => ElmTypes::Float,
            RustType::String => ElmTypes::String,
            RustType::Vec => ElmTypes::List,
            RustType::HashMap => ElmTypes::Dict,
            RustType::Option => ElmTypes::Maybe,
            RustType::Result => ElmTypes::Result,
            RustType::Unknown(value) => ElmTypes::Unknown(*value),
        }
    }
}

impl<'a> From<&'a RustType> for ElmTypes {
    fn from(input: &'a RustType) -> (token: Self)
        ensures
            token@ == input@.to_elm(),
    {
        match input {
            RustType::Char => ElmTypes::Char,
            RustType::Bool => ElmTypes::Bool,
            RustType::I8 => ElmTypes::Int,
            RustType::I16 => ElmTypes::Int,
            RustType::I32 => ElmTypes::Int,
            RustType::I64 => ElmTypes::Int,
            RustType::ISize => ElmTypes::Int,
            RustType::U8 => ElmTypes::Int,
            RustType::U16 => ElmTypes::Int,
            RustType::U32 => ElmTypes::Int,
            RustType::U64 => ElmTypes::Int,
            RustType::USize => ElmTypes::Int,
            RustType::F32 => ElmTypes::Float,
            RustType::F64 => ElmTypes::Float,
            RustType::String => ElmTypes::String,
            RustType::Vec => ElmTypes::List,
            RustType::HashMap => ElmTypes::Dict,
            RustType::Option => ElmTypes::Maybe,
            RustType::Result => ElmTypes::Result,
            RustType::Unknown(value) => ElmTypes::Unknown(value.clone()),
        }
    }
}

impl Clone for ElmTypes {
    fn clone(&self) -> (copy: Self)
        ensures
            copy == *self,
    {
        match self {
            ElmTypes::Bool => ElmTypes::Bool,
            ElmTypes::String => ElmTypes::String,
            ElmTypes::Int => ElmTypes::Int,
            ElmTypes::Float => ElmTypes::Float,
            ElmTypes::Char => ElmTypes::Char,
            ElmTypes::List => ElmTypes::List,
            ElmTypes::Dict => ElmTypes::Dict,
            ElmTypes::Maybe => ElmTypes::Maybe,
            ElmTypes::Result => ElmTypes::Result,
            ElmTypes::Unknown(value) => ElmTypes::Unknown(value.clone()),
        }
    }
}

impl Clone for RustType {
    fn clone(&self) -> (copy: Self)
        ensures
            copy == *self,
    {
        match self {
            RustType::Char => RustType::Char,
            RustType::Bool => RustType::Bool,
            RustType::I8 => RustType::I8,
            RustType::I16 => RustType::I16,
            RustType::I32 => RustType::I32,
            RustType::I64 => RustType::I64,
            RustType::ISize => RustType::ISize,
            RustType::U8 => RustType::U8,
            RustType::U16 => RustType::U16,
            RustType::U32 => RustType::U32,
            RustType::U64 => RustType::U64,
            RustType::USize => RustType::USize,
            RustType::F32 => RustType::F32,
            RustType::F64 => RustType::F64,
            RustType::String => RustType::String,
            RustType::Vec => RustType::Vec,
            RustType::HashMap => RustType::HashMap,
            RustType::Option => RustType::Option,
            RustType::Result => RustType::Result,
            RustType::Unknown(value) => RustType::Unknown(value.clone()),
        }
    }
}

/// A name that went through the table comes back unchanged when the token is
/// written out again.
pub proof fn lemma_name_round_trip(name: Seq<char>)
    ensures
        RustToken::of_name(name).name() == name,
{
}

} // verus!
