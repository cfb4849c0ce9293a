use elm_rusty::{
    collect_fields, file_name, find_field_types, generate_elm, generate_elm_types, Attribute,
    ElmModule, ElmTypes, FieldEntry, FieldInput, Literal, MetaItem, PathArg, RustType, Shape,
    TranslationError, TypeDescriptor,
};

fn named(name: &str, args: Vec<TypeDescriptor>) -> TypeDescriptor {
    TypeDescriptor::Path { name: name.to_string(), args }
}

fn plain(name: &str) -> TypeDescriptor {
    named(name, Vec::new())
}

fn field(ident: &str, ty: TypeDescriptor) -> FieldInput {
    FieldInput { ident: ident.to_string(), attrs: Vec::new(), ty }
}

fn renamed(ident: &str, rename: &str, ty: TypeDescriptor) -> FieldInput {
    let item = MetaItem::NameValue {
        name: "rename".to_string(),
        value: Literal::Str(rename.to_string()),
    };
    let attr = Attribute {
        path: "elm".to_string(),
        meta: Some(MetaItem::List { name: "elm".to_string(), nested: vec![item] }),
    };
    FieldInput { ident: ident.to_string(), attrs: vec![attr], ty }
}

fn entry(name: &str, tokens: Vec<ElmTypes>) -> FieldEntry {
    FieldEntry { name: name.to_string(), tokens }
}

fn options(rename: Option<&str>) -> PathArg {
    PathArg { rename: rename.map(|name| name.to_string()), path: "/tmp/elm".to_string() }
}

fn foo_fields() -> Vec<FieldInput> {
    vec![field("id", plain("i32")), field("name", plain("String"))]
}

fn user_fields() -> Vec<FieldInput> {
    vec![
        renamed("name", "foo", named("Option", vec![named("Vec", vec![plain("i32")])])),
        field(
            "id",
            TypeDescriptor::Reference {
                elem: Box::new(named(
                    "Vec",
                    vec![named(
                        "HashMap",
                        vec![plain("String"), named("Vec", vec![plain("User")])],
                    )],
                )),
            },
        ),
        field("vector", named("Vec", vec![plain("i32")])),
    ]
}

#[test]
fn test_me() {
    println!("asfdasf");
    let foo = generate_elm_types("Foo", &options(None), &foo_fields()).unwrap();
    assert_eq!(foo.name, "Foo");
    assert_eq!(foo.file, "Foo.elm");
    assert_eq!(
        foo.text,
        "module Foo exposing (..)\n\ntype alias Foo =\n\t{ id: Int\n\t, name: String\n\t}\n"
    );
    let user = generate_elm_types("User", &options(Some("ElmUser")), &user_fields()).unwrap();
    assert_eq!(user.name, "ElmUser");
    assert_eq!(user.file, "ElmUser.elm");
    assert_eq!(
        user.text,
        "module ElmUser exposing (..)\n\ntype alias ElmUser =\n\t{ foo: Maybe(List Int)\n\t, id: List(Dict String(List User))\n\t, vector: List Int\n\t}\n"
    );
}

#[test]
fn file_name_adds_the_extension() {
    assert_eq!(file_name("User"), "User.elm");
    assert_eq!(file_name(""), ".elm");
}

#[test]
fn generate_elm_writes_fields_in_order() {
    let fields = vec![
        entry("id", vec![ElmTypes::Int]),
        entry("tags", vec![ElmTypes::List, ElmTypes::String]),
        entry("scores", vec![ElmTypes::Dict, ElmTypes::String, ElmTypes::List, ElmTypes::Float]),
    ];
    assert_eq!(
        generate_elm("Record", &fields),
        Ok("module Record exposing (..)\n\ntype alias Record =\n\t{ id: Int\n\t, tags: List String\n\t, scores: Dict String(List Float)\n\t}\n".to_string())
    );
}

#[test]
fn generate_elm_with_one_field_and_with_none() {
    assert_eq!(
        generate_elm("One", &vec![entry("flag", vec![ElmTypes::Bool])]),
        Ok("module One exposing (..)\n\ntype alias One =\n\t{ flag: bool\n\t}\n".to_string())
    );
    assert_eq!(
        generate_elm("Empty", &Vec::new()),
        Ok("module Empty exposing (..)\n\ntype alias Empty =\n\t{ \t}\n".to_string())
    );
}

#[test]
fn generate_elm_refuses_malformed_tokens() {
    let fields = vec![
        entry("id", vec![ElmTypes::Int]),
        entry("bad", vec![ElmTypes::Int, ElmTypes::Int]),
    ];
    assert_eq!(generate_elm("Record", &fields), Err(TranslationError::MalformedSequence));
    let no_tokens = vec![entry("none", Vec::new())];
    assert_eq!(generate_elm("Record", &no_tokens), Err(TranslationError::MalformedSequence));
}

#[test]
fn field_order_is_the_declared_order() {
    let names = ["zeta", "alpha", "mid", "beta", "omega", "a", "b"];
    let fields: Vec<FieldInput> = names.iter().map(|name| field(name, plain("u8"))).collect();
    let first = collect_fields(&fields).unwrap();
    let got: Vec<&str> = first.iter().map(|entry| entry.name.as_str()).collect();
    assert_eq!(got, names);
    for _ in 0..20 {
        assert_eq!(collect_fields(&fields).unwrap(), first);
    }
    let text = generate_elm_types("Order", &options(None), &fields).unwrap().text;
    let mut at = 0;
    for name in names {
        let line = format!("{}: Int\n", name);
        let found = text[at..].find(&line).unwrap();
        at += found + line.len();
    }
    for _ in 0..20 {
        assert_eq!(generate_elm_types("Order", &options(None), &fields).unwrap().text, text);
    }
}

#[test]
fn fields_renamed_to_one_name_are_both_kept() {
    let fields = vec![renamed("a", "same", plain("i8")), renamed("b", "same", plain("String"))];
    assert_eq!(
        collect_fields(&fields),
        Ok(vec![entry("same", vec![ElmTypes::Int]), entry("same", vec![ElmTypes::String])])
    );
}

#[test]
fn collect_fields_gives_name_and_tokens() {
    assert_eq!(
        collect_fields(&user_fields()),
        Ok(vec![
            entry("foo", vec![ElmTypes::Maybe, ElmTypes::List, ElmTypes::Int]),
            entry(
                "id",
                vec![
                    ElmTypes::List,
                    ElmTypes::Dict,
                    ElmTypes::String,
                    ElmTypes::List,
                    ElmTypes::Unknown("User".to_string()),
                ]
            ),
            entry("vector", vec![ElmTypes::List, ElmTypes::Int]),
        ])
    );
    assert_eq!(collect_fields(&Vec::new()), Ok(Vec::new()));
}

#[test]
fn find_field_types_keeps_the_order_of_the_fields() {
    assert_eq!(
        find_field_types(&user_fields()),
        Ok(vec![
            vec![RustType::Option, RustType::Vec, RustType::I32],
            vec![
                RustType::Vec,
                RustType::HashMap,
                RustType::String,
                RustType::Vec,
                RustType::Unknown("User".to_string()),
            ],
            vec![RustType::Vec, RustType::I32],
        ])
    );
    assert_eq!(find_field_types(&Vec::new()), Ok(Vec::new()));
}

#[test]
fn rename_of_the_structure_names_the_module() {
    let with = generate_elm_types("User", &options(Some("ElmUser")), &foo_fields()).unwrap();
    assert_eq!(with.name, "ElmUser");
    assert!(with.text.starts_with("module ElmUser exposing (..)\n\ntype alias ElmUser =\n"));
    assert!(!with.text.contains("module User"));
    let without = generate_elm_types("User", &options(None), &foo_fields()).unwrap();
    assert_eq!(without.name, "User");
    assert!(without.text.starts_with("module User exposing (..)\n\ntype alias User =\n"));
}

#[test]
fn rename_of_a_field_names_the_field() {
    let fields = vec![renamed("name", "foo", plain("String")), field("other", plain("String"))];
    let module = generate_elm_types("S", &options(None), &fields).unwrap();
    assert_eq!(
        module.text,
        "module S exposing (..)\n\ntype alias S =\n\t{ foo: String\n\t, other: String\n\t}\n"
    );
}

#[test]
fn unsupported_type_names_its_field() {
    let fields = vec![
        field("ok", plain("i32")),
        field("rows", named("Vec", vec![TypeDescriptor::Unsupported { shape: Shape::Array }])),
        field("later", TypeDescriptor::Unsupported { shape: Shape::Function }),
    ];
    let expected = TranslationError::UnsupportedShape { field: "rows".to_string(), shape: Shape::Array };
    assert_eq!(find_field_types(&fields), Err(expected));
    let expected = TranslationError::UnsupportedShape { field: "rows".to_string(), shape: Shape::Array };
    assert_eq!(generate_elm_types("S", &options(None), &fields), Err(expected));
}

#[test]
fn unsupported_type_is_reported_before_a_refused_attribute() {
    let bare = Attribute { path: "elm".to_string(), meta: Some(MetaItem::Word { name: "elm".to_string() }) };
    let fields = vec![
        FieldInput { ident: "first".to_string(), attrs: vec![bare], ty: plain("i32") },
        field("second", TypeDescriptor::Unsupported { shape: Shape::Tuple }),
    ];
    assert_eq!(
        collect_fields(&fields),
        Err(TranslationError::UnsupportedShape { field: "second".to_string(), shape: Shape::Tuple })
    );
}

#[test]
fn refused_attribute_names_its_field() {
    let bare = Attribute { path: "elm".to_string(), meta: Some(MetaItem::Word { name: "elm".to_string() }) };
    let fields = vec![
        field("fine", plain("i32")),
        FieldInput { ident: "marked".to_string(), attrs: vec![bare], ty: plain("i32") },
    ];
    assert_eq!(
        generate_elm_types("S", &options(None), &fields),
        Err(TranslationError::UnknownRename { field: "marked".to_string() })
    );
}

#[test]
fn tokens_that_do_not_fold_are_malformed() {
    let fields = vec![field("pair", named("Vec", vec![plain("i32"), plain("u8")]))];
    assert_eq!(
        generate_elm_types("S", &options(None), &fields),
        Err(TranslationError::MalformedSequence)
    );
    let generic = vec![field("wrapped", named("Wrapper", vec![plain("i32")]))];
    assert_eq!(
        generate_elm_types("S", &options(None), &generic),
        Err(TranslationError::MalformedSequence)
    );
}

#[test]
fn options_given_with_the_structure_win_over_the_fallback() {
    let given = PathArg { rename: Some("R".to_string()), path: "here".to_string() };
    assert_eq!(
        PathArg::or_fallback(Some(given), Some("there".to_string())),
        Some(PathArg { rename: Some("R".to_string()), path: "here".to_string() })
    );
    assert_eq!(
        PathArg::or_fallback(None, Some("there".to_string())),
        Some(PathArg { rename: None, path: "there".to_string() })
    );
    assert_eq!(PathArg::or_fallback(None, None), None);
    let alone = PathArg { rename: None, path: "here".to_string() };
    assert_eq!(
        PathArg::or_fallback(Some(alone), None),
        Some(PathArg { rename: None, path: "here".to_string() })
    );
}

#[test]
fn default_options_are_empty() {
    assert_eq!(PathArg::default(), PathArg { rename: None, path: String::new() });
}

#[test]
fn module_holds_name_file_and_text() {
    let module = generate_elm_types("Foo", &options(None), &foo_fields()).unwrap();
    assert_eq!(
        module,
        ElmModule {
            name: "Foo".to_string(),
            file: "Foo.elm".to_string(),
            text: "module Foo exposing (..)\n\ntype alias Foo =\n\t{ id: Int\n\t, name: String\n\t}\n"
                .to_string(),
        }
    );
}

#[test]
fn messages_name_the_field_and_the_fault() {
    let shape = TranslationError::UnsupportedShape { field: "rows".to_string(), shape: Shape::Array };
    assert_eq!(shape.message(), "Type `array` of field `rows` not supported");
    let rename = TranslationError::UnknownRename { field: "title".to_string() };
    assert_eq!(rename.message(), "Invalid attribute #[Elm] on field `title`");
    assert_eq!(
        TranslationError::MalformedSequence.message(),
        "Malformed sequence of type constructors"
    );
}

#[test]
fn shapes_have_distinct_names() {
    let names = [
        (Shape::Array, "array"),
        (Shape::Function, "function"),
        (Shape::Group, "group"),
        (Shape::Existential, "impl trait"),
        (Shape::Tuple, "tuple"),
        (Shape::TraitObject, "trait object"),
        (Shape::Other, "unsupported"),
    ];
    for (shape, name) in names {
        assert_eq!(shape.name(), name);
    }
}

#[test]
fn well_formed_types_render_their_syntax() {
    let cases: Vec<(TypeDescriptor, &str)> = vec![
        (plain("bool"), "bool"),
        (plain("User"), "User"),
        (named("Option", vec![plain("char")]), "Maybe Char"),
        (named("Vec", vec![named("Option", vec![plain("f64")])]), "List(Maybe Float)"),
        (named("HashMap", vec![plain("String"), plain("u16")]), "Dict String Int"),
        (
            named("HashMap", vec![plain("Id"), named("Vec", vec![plain("User")])]),
            "Dict Id(List User)",
        ),
        (
            TypeDescriptor::Reference {
                elem: Box::new(named(
                    "Option",
                    vec![TypeDescriptor::Reference { elem: Box::new(plain("str")) }],
                )),
            },
            "Maybe str",
        ),
        (
            named(
                "HashMap",
                vec![
                    TypeDescriptor::Reference { elem: Box::new(plain("String")) },
                    named("HashMap", vec![plain("u8"), named("Option", vec![plain("bool")])]),
                ],
            ),
            "Dict String(Dict Int(Maybe bool))",
        ),
    ];
    for (ty, syntax) in cases {
        let module = generate_elm_types("T", &options(None), &vec![field("f", ty)]).unwrap();
        assert_eq!(
            module.text,
            format!("module T exposing (..)\n\ntype alias T =\n\t{{ f: {}\n\t}}\n", syntax)
        );
    }
}
