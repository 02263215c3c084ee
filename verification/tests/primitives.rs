use serde_graphql_input::{to_string_pretty, Field, Value};

fn input(something: Value) -> Value {
    Value::Record { name: "Input", fields: vec![Field::new("something", something)] }
}

#[test]
fn can_serialize_i8() {
    let something: i8 = 123;
    let input = input(Value::I8(something));

    let output = to_string_pretty(&input).unwrap();

    assert_eq!(r#"{something:123}"#, output.as_str())
}

#[test]
fn can_serialize_i16() {
    let something: i16 = 123;
    let input = input(Value::I16(something));

    let output = to_string_pretty(&input).unwrap();

    assert_eq!(r#"{something:123}"#, output.as_str())
}

#[test]
fn can_serialize_i32() {
    let something: i32 = 123;
    let input = input(Value::I32(something));

    let output = to_string_pretty(&input).unwrap();

    assert_eq!(r#"{something:123}"#, output.as_str())
}

#[test]
fn can_serialize_i64() {
    let something: i64 = 123;
    let input = input(Value::I64(something));

    let output = to_string_pretty(&input).unwrap();

    assert_eq!(r#"{something:123}"#, output.as_str())
}

#[test]
fn can_serialize_u8() {
    let something: u8 = 123;
    let input = input(Value::U8(something));

    let output = to_string_pretty(&input).unwrap();

    assert_eq!(r#"{something:123}"#, output.as_str())
}

#[test]
fn can_serialize_u16() {
    let something: u16 = 123;
    let input = input(Value::U16(something));

    let output = to_string_pretty(&input).unwrap();

    assert_eq!(r#"{something:123}"#, output.as_str())
}

#[test]
fn can_serialize_u32() {
    let something: u32 = 123;
    let input = input(Value::U32(something));

    let output = to_string_pretty(&input).unwrap();

    assert_eq!(r#"{something:123}"#, output.as_str())
}

#[test]
fn can_serialize_u64() {
    let something: u64 = 123;
    let input = input(Value::U64(something));

    let output = to_string_pretty(&input).unwrap();

    assert_eq!(r#"{something:123}"#, output.as_str())
}

#[test]
fn can_serialize_f32() {
    let something: f32 = 123.5;
    let input = input(Value::F32(format!("{something}")));

    let output = to_string_pretty(&input).unwrap();

    assert_eq!(r#"{something:123.5}"#, output.as_str())
}

#[test]
fn can_serialize_f64() {
    let something: f64 = 123.5;
    let input = input(Value::F64(format!("{something}")));

    let output = to_string_pretty(&input).unwrap();

    assert_eq!(r#"{something:123.5}"#, output.as_str())
}

#[test]
fn can_serialize_char() {
    let input = input(Value::Char('a'));

    let output = to_string_pretty(&input).unwrap();

    assert_eq!(r#"{something:'a'}"#, output.as_str())
}
