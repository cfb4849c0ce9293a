use elm_rusty::{
    find_field_type, to_elm_types, type_args, ElmTypes, RustType, Shape, TranslationError,
    TypeDescriptor,
};

fn named(name: &str, args: Vec<TypeDescriptor>) -> TypeDescriptor {
    TypeDescriptor::Path { name: name.to_string(), args }
}

fn plain(name: &str) -> TypeDescriptor {
    named(name, Vec::new())
}

fn reference(elem: TypeDescriptor) -> TypeDescriptor {
    TypeDescriptor::Reference { elem: Box::new(elem) }
}

fn unsupported(shape: Shape) -> TypeDescriptor {
    TypeDescriptor::Unsupported { shape }
}

fn refused(field: &str, shape: Shape) -> TranslationError {
    TranslationError::UnsupportedShape { field: field.to_string(), shape }
}

#[test]
fn plain_named_type_gives_one_token() {
    assert_eq!(find_field_type("id", &plain("i32")), Ok(vec![RustType::I32]));
    assert_eq!(find_field_type("name", &plain("String")), Ok(vec![RustType::String]));
    assert_eq!(
        find_field_type("owner", &plain("User")),
        Ok(vec![RustType::Unknown("User".to_string())])
    );
}

#[test]
fn wrapper_comes_before_its_arguments() {
    let ty = named("Option", vec![named("Vec", vec![plain("i32")])]);
    assert_eq!(
        find_field_type("name", &ty),
        Ok(vec![RustType::Option, RustType::Vec, RustType::I32])
    );
}

#[test]
fn arguments_are_flattened_depth_first_from_left_to_right() {
    let ty = named(
        "HashMap",
        vec![
            named("Option", vec![plain("u8")]),
            named("Vec", vec![named("HashMap", vec![plain("String"), plain("f32")])]),
        ],
    );
    assert_eq!(
        find_field_type("table", &ty),
        Ok(vec![
            RustType::HashMap,
            RustType::Option,
            RustType::U8,
            RustType::Vec,
            RustType::HashMap,
            RustType::String,
            RustType::F32,
        ])
    );
}

#[test]
fn references_add_no_token() {
    let direct = named("Vec", vec![plain("i32")]);
    let expected = Ok(vec![RustType::Vec, RustType::I32]);
    assert_eq!(find_field_type("v", &direct), expected);
    let once = reference(named("Vec", vec![plain("i32")]));
    assert_eq!(find_field_type("v", &once), expected);
    let thrice = reference(reference(reference(named("Vec", vec![plain("i32")]))));
    assert_eq!(find_field_type("v", &thrice), expected);
}

#[test]
fn references_inside_arguments_add_no_token() {
    let ty = named("Vec", vec![reference(plain("str"))]);
    assert_eq!(
        find_field_type("v", &ty),
        Ok(vec![RustType::Vec, RustType::Unknown("str".to_string())])
    );
}

#[test]
fn unsupported_shape_at_the_top_is_refused() {
    for shape in [
        Shape::Array,
        Shape::Function,
        Shape::Group,
        Shape::Existential,
        Shape::Tuple,
        Shape::TraitObject,
        Shape::Other,
    ] {
        assert_eq!(find_field_type("data", &unsupported(shape)), Err(refused("data", shape)));
    }
}

#[test]
fn unsupported_shape_inside_a_type_is_refused() {
    let array = named("Vec", vec![unsupported(Shape::Array)]);
    assert_eq!(find_field_type("rows", &array), Err(refused("rows", Shape::Array)));
    let function = named("Option", vec![named("Vec", vec![unsupported(Shape::Function)])]);
    assert_eq!(find_field_type("hooks", &function), Err(refused("hooks", Shape::Function)));
    let existential = reference(named("Box", vec![unsupported(Shape::Existential)]));
    assert_eq!(find_field_type("it", &existential), Err(refused("it", Shape::Existential)));
    let behind = reference(reference(unsupported(Shape::Tuple)));
    assert_eq!(find_field_type("pair", &behind), Err(refused("pair", Shape::Tuple)));
}

#[test]
fn first_unsupported_shape_is_the_one_reported() {
    let ty = named(
        "HashMap",
        vec![
            plain("String"),
            named("Vec", vec![unsupported(Shape::Group)]),
            unsupported(Shape::Array),
        ],
    );
    assert_eq!(find_field_type("m", &ty), Err(refused("m", Shape::Group)));
}

#[test]
fn type_args_flattens_each_argument_in_turn() {
    assert_eq!(type_args("f", &Vec::new()), Ok(Vec::new()));
    let args = vec![plain("String"), named("Vec", vec![plain("bool")]), plain("char")];
    assert_eq!(
        type_args("f", &args),
        Ok(vec![RustType::String, RustType::Vec, RustType::Bool, RustType::Char])
    );
    let bad = vec![plain("String"), unsupported(Shape::TraitObject), unsupported(Shape::Array)];
    assert_eq!(type_args("f", &bad), Err(refused("f", Shape::TraitObject)));
}

#[test]
fn to_elm_types_maps_token_by_token() {
    let tokens = vec![
        RustType::Option,
        RustType::Vec,
        RustType::HashMap,
        RustType::String,
        RustType::U64,
        RustType::F32,
        RustType::Unknown("User".to_string()),
    ];
    assert_eq!(
        to_elm_types(&tokens),
        vec![
            ElmTypes::Maybe,
            ElmTypes::List,
            ElmTypes::Dict,
            ElmTypes::String,
            ElmTypes::Int,
            ElmTypes::Float,
            ElmTypes::Unknown("User".to_string()),
        ]
    );
    assert_eq!(to_elm_types(&Vec::new()), Vec::<ElmTypes>::new());
}
