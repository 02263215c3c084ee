use serde_graphql_input::{to_string_pretty, Value};

#[test]
fn can_serialize_unit_struct() {
    let input = Value::UnitStruct { name: "Input" };

    let output = to_string_pretty(&input).unwrap();

    assert_eq!(r#"null"#, output.as_str())
}

#[test]
fn can_serialize_newtype_struct() {
    let input = Value::NewtypeStruct { name: "Input", value: Box::new(Value::string("something")) };

    let output = to_string_pretty(&input).unwrap();

    assert_eq!(r#""something""#, output.as_str())
}

#[test]
fn can_serialize_newtype_variant() {
    let input = Value::UnitVariant { name: "Input", variant_index: 0, variant: "Something" };

    let output = to_string_pretty(&input).unwrap();

    assert_eq!(r#"Something"#, output.as_str())
}

#[test]
fn can_serialize_tuplestruct() {
    let input = Value::TupleStruct {
        name: "Input",
        items: vec![Value::U64(123), Value::string("something")],
    };

    let output = to_string_pretty(&input).unwrap();

    assert_eq!(r#"[123,"something"]"#, output.as_str())
}
