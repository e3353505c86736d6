use fields::{
    field_names, get_field_names, get_struct_data, push_decimal, synthesize, Data,
    DeriveInput, Field, Generics, ShapeError, Visibility,
};

fn field(name: &str, vis: Visibility) -> Field {
    Field { ident: Some(name.to_string()), vis }
}

fn positional(vis: Visibility) -> Field {
    Field { ident: None, vis }
}

fn no_generics() -> Generics {
    Generics {
        impl_generics: String::new(),
        ty_generics: String::new(),
        where_clause: String::new(),
    }
}

fn input(name: &str, data: Data) -> DeriveInput {
    DeriveInput { ident: name.to_string(), generics: no_generics(), data }
}

#[test]
fn should_parse_struct() {
    let test = input(
        "Test",
        Data::Struct(vec![field("field1", Visibility::Public), field("field2", Visibility::Public)]),
    );
    assert_eq!(field_names(&test).unwrap(), ["field1", "field2"]);
}

#[test]
fn two_public_fields_expand_to_a_two_element_array() {
    let test = input(
        "Test",
        Data::Struct(vec![field("field1", Visibility::Public), field("field2", Visibility::Public)]),
    );
    assert_eq!(
        fields::synth::derive(&test).unwrap(),
        "impl  Test   { pub const fn fields() -> [&'static str; 2] { [\"field1\",\"field2\",] } }"
    );
}

#[test]
fn private_field_is_skipped() {
    let test = input(
        "Test",
        Data::Struct(vec![
            field("field1", Visibility::Public),
            field("field2", Visibility::Inherited),
            field("field3", Visibility::Public),
        ]),
    );
    assert_eq!(field_names(&test).unwrap(), ["field1", "field3"]);
    assert_eq!(
        fields::synth::derive(&test).unwrap(),
        "impl  Test   { pub const fn fields() -> [&'static str; 2] { [\"field1\",\"field3\",] } }"
    );
}

#[test]
fn restricted_visibility_is_skipped() {
    let test = input(
        "Test",
        Data::Struct(vec![
            field("a", Visibility::Restricted),
            field("b", Visibility::Public),
            field("c", Visibility::Restricted),
        ]),
    );
    assert_eq!(field_names(&test).unwrap(), ["b"]);
}

#[test]
fn all_public_fields_in_declaration_order() {
    let test = input(
        "Order",
        Data::Struct(vec![
            field("zeta", Visibility::Public),
            field("alpha", Visibility::Public),
            field("mid", Visibility::Public),
        ]),
    );
    assert_eq!(field_names(&test).unwrap(), ["zeta", "alpha", "mid"]);
}

#[test]
fn struct_without_fields_gives_empty_list() {
    let test = input("Empty", Data::Struct(vec![]));
    assert_eq!(field_names(&test).unwrap(), Vec::<String>::new());
    assert_eq!(
        fields::synth::derive(&test).unwrap(),
        "impl  Empty   { pub const fn fields() -> [&'static str; 0] { [] } }"
    );
}

#[test]
fn struct_with_only_private_fields_gives_empty_list() {
    let test = input(
        "Hidden",
        Data::Struct(vec![field("a", Visibility::Inherited), field("b", Visibility::Restricted)]),
    );
    assert_eq!(field_names(&test).unwrap(), Vec::<String>::new());
}

#[test]
fn enum_is_refused() {
    let test = input("E", Data::Enum);
    assert_eq!(get_struct_data(&test).unwrap_err(), ShapeError::Enum);
    assert_eq!(fields::synth::derive(&test), Err(ShapeError::Enum));
    assert_eq!(ShapeError::Enum.message(), "Fields derive macro is only supported on structs");
}

#[test]
fn union_is_refused() {
    let test = input("U", Data::Union);
    assert_eq!(fields::synth::derive(&test), Err(ShapeError::Union));
    assert_eq!(
        ShapeError::Union.message(),
        "Fields derive macro is only supported on structs with named fields"
    );
}

#[test]
fn marker_struct_is_refused() {
    let test = input("M", Data::Unit);
    assert_eq!(field_names(&test), Err(ShapeError::Unnamed));
    assert_eq!(ShapeError::Unnamed.message(), "Unit structs are not supported");
}

#[test]
fn positional_fields_are_refused() {
    let test = input(
        "T",
        Data::Struct(vec![positional(Visibility::Public), positional(Visibility::Inherited)]),
    );
    assert_eq!(fields::synth::derive(&test), Err(ShapeError::Unnamed));
}

#[test]
fn one_positional_field_refuses_the_whole_struct() {
    let test = input(
        "Mixed",
        Data::Struct(vec![field("a", Visibility::Public), positional(Visibility::Public)]),
    );
    assert_eq!(field_names(&test), Err(ShapeError::Unnamed));
}

#[test]
fn generics_are_carried_over() {
    let fields = vec![field("value", Visibility::Public), field("hidden", Visibility::Inherited)];
    let generic = DeriveInput {
        ident: "Wrapper".to_string(),
        generics: Generics {
            impl_generics: "< T : Clone >".to_string(),
            ty_generics: "< T >".to_string(),
            where_clause: "where T : Default".to_string(),
        },
        data: Data::Struct(fields),
    };
    assert_eq!(
        fields::synth::derive(&generic).unwrap(),
        "impl < T : Clone > Wrapper < T > where T : Default \
         { pub const fn fields() -> [&'static str; 1] { [\"value\",] } }"
    );
    let plain = input(
        "Wrapper",
        Data::Struct(vec![field("value", Visibility::Public), field("hidden", Visibility::Inherited)]),
    );
    assert_eq!(field_names(&generic), field_names(&plain));
}

#[test]
fn length_of_many_fields_is_written_in_decimal() {
    let mut fs = Vec::new();
    for i in 0..12 {
        fs.push(field(&format!("f{}", i), Visibility::Public));
    }
    let test = input("Wide", Data::Struct(fs));
    let text = fields::synth::derive(&test).unwrap();
    assert!(text.contains("[&'static str; 12]"));
    assert!(text.contains("[\"f0\",\"f1\","));
    assert!(text.ends_with("\"f11\",] } }"));
}

#[test]
fn decimal_text() {
    let mut s = String::from("n=");
    push_decimal(&mut s, 0);
    assert_eq!(s, "n=0");
    let mut s = String::new();
    push_decimal(&mut s, 9);
    assert_eq!(s, "9");
    let mut s = String::new();
    push_decimal(&mut s, 10);
    assert_eq!(s, "10");
    let mut s = String::new();
    push_decimal(&mut s, 1207);
    assert_eq!(s, "1207");
    let mut s = String::new();
    push_decimal(&mut s, usize::MAX);
    assert_eq!(s, usize::MAX.to_string());
}

#[test]
fn synthesize_uses_the_given_names() {
    let names = vec!["x".to_string(), "r#type".to_string()];
    assert_eq!(
        synthesize(&"P".to_string(), &no_generics(), &names),
        "impl  P   { pub const fn fields() -> [&'static str; 2] { [\"x\",\"r#type\",] } }"
    );
}

#[test]
fn get_field_names_keeps_duplicates() {
    let fs = vec![field("a", Visibility::Public), field("a", Visibility::Public)];
    assert_eq!(get_field_names(&fs), ["a", "a"]);
}
