use serde_graphql_input::{
    CompactFormatter, Error, PrettyFormatter, SerializeMap, SerializeSeq, SerializeStruct,
    SerializeStructVariant, SerializeTuple, SerializeTupleStruct, SerializeTupleVariant,
    Serializer, Sink, Value,
};

/// A sink that takes a given number of writes and refuses every later one.
struct Flaky {
    taken: Vec<u8>,
    writes_left: usize,
}

impl Sink for Flaky {
    fn write_all(&mut self, bytes: &[u8]) -> Result<(), std::io::Error> {
        if self.writes_left == 0 {
            return Err(std::io::Error::new(std::io::ErrorKind::WriteZero, "the sink is full"));
        }
        self.writes_left -= 1;
        self.taken.extend_from_slice(bytes);
        Ok(())
    }
}

fn compact() -> Serializer<Vec<u8>, CompactFormatter> {
    Serializer::with_formatter(Vec::new(), CompactFormatter)
}

fn text(ser: Serializer<Vec<u8>, CompactFormatter>) -> String {
    String::from_utf8(ser.into_inner()).unwrap()
}

#[test]
fn with_formatter_starts_with_the_sink_as_given() {
    let ser = Serializer::with_formatter(vec![b'x'], CompactFormatter);
    assert_eq!(ser.into_inner(), vec![b'x']);
}

#[test]
fn pretty_starts_with_the_sink_as_given() {
    let mut ser = Serializer::pretty(vec![b'>']);
    ser.serialize_bool(false).unwrap();
    assert_eq!(ser.into_inner(), b">false".to_vec());
}

#[test]
fn pretty_formatter_writes_the_compact_tokens() {
    let mut ser = Serializer::with_formatter(Vec::new(), PrettyFormatter::with_indent(b"    "));
    let mut map = ser.serialize_map(None).unwrap();
    map.serialize_entry("a", &Value::I32(1)).unwrap();
    map.serialize_entry("b", &Value::I32(2)).unwrap();
    SerializeMap::end(map).unwrap();
    assert_eq!(ser.into_inner(), b"{a:1,b:2}".to_vec());

    let mut ser = Serializer::with_formatter(Vec::new(), PrettyFormatter::default());
    ser.serialize_unit().unwrap();
    assert_eq!(ser.into_inner(), b"null".to_vec());

    let mut ser = Serializer::with_formatter(Vec::new(), PrettyFormatter::new());
    ser.serialize_char('x').unwrap();
    assert_eq!(ser.into_inner(), b"'x'".to_vec());
}

#[test]
fn integers_are_decimal_without_padding() {
    let mut ser = compact();
    ser.serialize_i8(i8::MIN).unwrap();
    ser.serialize_char(' ').unwrap();
    ser.serialize_i16(-1).unwrap();
    ser.serialize_char(' ').unwrap();
    ser.serialize_i32(0).unwrap();
    ser.serialize_char(' ').unwrap();
    ser.serialize_i64(i64::MIN).unwrap();
    ser.serialize_char(' ').unwrap();
    ser.serialize_u8(u8::MAX).unwrap();
    ser.serialize_char(' ').unwrap();
    ser.serialize_u16(10).unwrap();
    ser.serialize_char(' ').unwrap();
    ser.serialize_u32(1_000_000).unwrap();
    ser.serialize_char(' ').unwrap();
    ser.serialize_u64(u64::MAX).unwrap();
    assert_eq!(
        text(ser),
        "-128' '-1' '0' '-9223372036854775808' '255' '10' '1000000' '18446744073709551615"
    );
}

#[test]
fn floats_are_written_as_the_text_handed_over() {
    let mut ser = compact();
    ser.serialize_f32(&format!("{}", 0.1f32)).unwrap();
    ser.serialize_unit_variant("", 0, ";").unwrap();
    ser.serialize_f64(&format!("{}", -2.5e-3f64)).unwrap();
    assert_eq!(text(ser), "0.1;-0.0025");
}

#[test]
fn strings_and_chars_are_not_escaped() {
    let mut ser = compact();
    ser.serialize_str("a\"b\\c\n").unwrap();
    ser.serialize_char('\'').unwrap();
    ser.serialize_char('"').unwrap();
    assert_eq!(text(ser), "\"a\"b\\c\n\"'''\'\"'");
}

#[test]
fn text_beyond_ascii_passes_through_as_utf8() {
    let mut ser = compact();
    ser.serialize_str("h\u{e9}llo \u{4e16}\u{754c} \u{1f600}").unwrap();
    ser.serialize_char('\u{df}').unwrap();
    assert_eq!(text(ser), "\"h\u{e9}llo \u{4e16}\u{754c} \u{1f600}\"'\u{df}'");
}

#[test]
fn none_unit_and_unit_struct_are_null() {
    let mut ser = compact();
    ser.serialize_none().unwrap();
    ser.serialize_unit().unwrap();
    ser.serialize_unit_struct("Marker").unwrap();
    assert_eq!(text(ser), "nullnullnull");
}

#[test]
fn some_and_newtype_struct_add_nothing() {
    let mut ser = compact();
    ser.serialize_some(&Value::I8(7)).unwrap();
    ser.serialize_newtype_struct("Wrapper", &Value::Bool(false)).unwrap();
    assert_eq!(text(ser), "7false");
}

#[test]
fn unit_variant_is_a_bare_token() {
    let mut ser = compact();
    ser.serialize_unit_variant("Enum", 3, "ItemA").unwrap();
    assert_eq!(text(ser), "ItemA");
}

#[test]
fn newtype_variant_is_an_object_with_one_bare_key() {
    let mut ser = compact();
    ser.serialize_newtype_variant("Enum", 0, "Something", &Value::string("x")).unwrap();
    assert_eq!(text(ser), r#"{Something:"x"}"#);
}

#[test]
fn seq_announced_empty_is_closed_once() {
    let mut ser = compact();
    let seq = ser.serialize_seq(Some(0)).unwrap();
    SerializeSeq::end(seq).unwrap();
    assert_eq!(text(ser), "[]");
}

#[test]
fn seq_of_unknown_length_without_elements_is_closed_once() {
    let mut ser = compact();
    let seq = ser.serialize_seq(None).unwrap();
    SerializeSeq::end(seq).unwrap();
    assert_eq!(text(ser), "[]");
}

#[test]
fn seq_announced_longer_than_it_is_is_closed_once() {
    let mut ser = compact();
    let seq = ser.serialize_seq(Some(5)).unwrap();
    SerializeSeq::end(seq).unwrap();
    assert_eq!(text(ser), "[]");
}

#[test]
fn seq_elements_are_separated_by_commas() {
    let mut ser = compact();
    let mut seq = ser.serialize_seq(Some(3)).unwrap();
    SerializeSeq::serialize_element(&mut seq, &Value::U8(1)).unwrap();
    SerializeSeq::serialize_element(&mut seq, &Value::U8(2)).unwrap();
    SerializeSeq::serialize_element(&mut seq, &Value::U8(3)).unwrap();
    SerializeSeq::end(seq).unwrap();
    assert_eq!(text(ser), "[1,2,3]");
}

#[test]
fn tuple_and_tuple_struct_are_arrays() {
    let mut ser = compact();
    let mut tuple = ser.serialize_tuple(2).unwrap();
    SerializeTuple::serialize_element(&mut tuple, &Value::string("one")).unwrap();
    SerializeTuple::serialize_element(&mut tuple, &Value::string("two")).unwrap();
    SerializeTuple::end(tuple).unwrap();
    let mut tuple = ser.serialize_tuple_struct("Pair", 2).unwrap();
    SerializeTupleStruct::serialize_field(&mut tuple, &Value::I16(-3)).unwrap();
    SerializeTupleStruct::serialize_field(&mut tuple, &Value::Unit).unwrap();
    SerializeTupleStruct::end(tuple).unwrap();
    let tuple = ser.serialize_tuple(0).unwrap();
    SerializeTuple::end(tuple).unwrap();
    assert_eq!(text(ser), r#"["one","two"][-3,null][]"#);
}

#[test]
fn tuple_variant_wraps_an_array() {
    let mut ser = compact();
    let mut variant = ser.serialize_tuple_variant("Enum", 1, "Pair", 2).unwrap();
    SerializeTupleVariant::serialize_field(&mut variant, &Value::U32(1)).unwrap();
    SerializeTupleVariant::serialize_field(&mut variant, &Value::U32(2)).unwrap();
    SerializeTupleVariant::end(variant).unwrap();
    let variant = ser.serialize_tuple_variant("Enum", 2, "Nothing", 0).unwrap();
    SerializeTupleVariant::end(variant).unwrap();
    assert_eq!(text(ser), "{Pair:[1,2]}{Nothing:[]}");
}

#[test]
fn map_keys_are_bare_and_values_follow_a_colon() {
    let mut ser = compact();
    let mut map = ser.serialize_map(Some(2)).unwrap();
    map.serialize_key("first").unwrap();
    map.serialize_value(&Value::string("a b")).unwrap();
    map.serialize_key("second key").unwrap();
    map.serialize_value(&Value::Sequence(vec![])).unwrap();
    SerializeMap::end(map).unwrap();
    let map = ser.serialize_map(Some(0)).unwrap();
    SerializeMap::end(map).unwrap();
    let map = ser.serialize_map(None).unwrap();
    SerializeMap::end(map).unwrap();
    assert_eq!(text(ser), r#"{first:"a b",second key:[]}{}{}"#);
}

#[test]
fn skipped_field_is_neither_written_nor_first() {
    let mut ser = compact();
    let mut record = ser.serialize_struct("Input", 2).unwrap();
    SerializeStruct::skip_field(&mut record, "a").unwrap();
    SerializeStruct::serialize_field(&mut record, "b", &Value::I64(1)).unwrap();
    SerializeStruct::skip_field(&mut record, "c").unwrap();
    SerializeStruct::serialize_field(&mut record, "d", &Value::I64(2)).unwrap();
    SerializeStruct::end(record).unwrap();
    assert_eq!(text(ser), "{b:1,d:2}");
}

#[test]
fn struct_variant_closes_both_objects() {
    let mut ser = compact();
    let mut variant = ser.serialize_struct_variant("Enum", 0, "Point", 2).unwrap();
    SerializeStructVariant::serialize_field(&mut variant, "x", &Value::I32(1)).unwrap();
    SerializeStructVariant::skip_field(&mut variant, "hidden").unwrap();
    SerializeStructVariant::serialize_field(&mut variant, "y", &Value::I32(-1)).unwrap();
    SerializeStructVariant::end(variant).unwrap();
    let variant = ser.serialize_struct_variant("Enum", 1, "Origin", 0).unwrap();
    SerializeStructVariant::end(variant).unwrap();
    assert_eq!(text(ser), "{Point:{x:1,y:-1}}{Origin:{}}");
}

#[test]
fn a_refused_write_is_an_io_error() {
    let sink = Flaky { taken: Vec::new(), writes_left: 0 };
    let mut ser = Serializer::with_formatter(sink, CompactFormatter);
    let error = ser.serialize_bool(true).unwrap_err();
    assert!(error.is_io());
    assert_eq!(error.message(), "the sink is full");
    let cause = error.into_io().unwrap();
    assert_eq!(cause.kind(), std::io::ErrorKind::WriteZero);
}

#[test]
fn a_refused_write_stops_the_walk() {
    let value = Value::Sequence(vec![Value::I8(1), Value::I8(2), Value::I8(3)]);
    // "[", "1", ",", "2" are taken; the next comma is refused.
    let sink = Flaky { taken: Vec::new(), writes_left: 4 };
    let mut ser = Serializer::with_formatter(sink, CompactFormatter);
    let error = value.serialize(&mut ser).unwrap_err();
    assert!(error.is_io());
    assert_eq!(ser.into_inner().taken, b"[1,2".to_vec());
}

#[test]
fn a_refused_write_fails_every_opening() {
    for writes_left in 0..3 {
        let sink = Flaky { taken: Vec::new(), writes_left };
        let mut ser = Serializer::with_formatter(sink, CompactFormatter);
        assert!(ser.serialize_struct_variant("Enum", 0, "V", 1).is_err());
    }
    let sink = Flaky { taken: Vec::new(), writes_left: 0 };
    let mut ser = Serializer::with_formatter(sink, CompactFormatter);
    assert!(ser.serialize_seq(None).is_err());
    assert!(ser.serialize_map(None).is_err());
    assert!(ser.serialize_tuple_variant("Enum", 0, "V", 1).is_err());
}

#[test]
fn a_sink_with_room_takes_the_whole_text() {
    let value = Value::NewtypeVariant {
        name: "Enum",
        variant_index: 0,
        variant: "Wrapped",
        value: Box::new(Value::Tuple(vec![Value::Bool(true), Value::absent()])),
    };
    let sink = Flaky { taken: Vec::new(), writes_left: 100 };
    let mut ser = Serializer::with_formatter(sink, CompactFormatter);
    value.serialize(&mut ser).unwrap();
    assert_eq!(ser.into_inner().taken, b"{Wrapped:[true,null]}".to_vec());
}

#[test]
fn custom_error_carries_its_message() {
    let error = Error::custom("unsupported shape");
    assert!(!error.is_io());
    assert_eq!(error.message(), "unsupported shape");
    assert_eq!(error.into_io().unwrap_err(), "unsupported shape");
}

#[test]
fn io_error_wraps_its_cause() {
    let cause = std::io::Error::new(std::io::ErrorKind::BrokenPipe, "pipe closed");
    let error = Error::io(cause);
    assert!(error.is_io());
    assert_eq!(error.message(), "pipe closed");
    assert_eq!(error.into_io().unwrap().kind(), std::io::ErrorKind::BrokenPipe);
}
