use serde_graphql_input::{to_string_pretty, Entry, Field, Value};

fn render(value: &Value) -> String {
    to_string_pretty(value).unwrap()
}

fn record(fields: Vec<Field>) -> Value {
    Value::Record { name: "Record", fields }
}

/// The commas of `text` that stand outside every bracket, brace and quote,
/// counted one level inside the outermost pair.
fn top_level_commas(text: &str) -> usize {
    let mut depth = 0usize;
    let mut quoted = false;
    let mut commas = 0;
    for c in text.chars() {
        match c {
            '"' => quoted = !quoted,
            '{' | '[' if !quoted => depth += 1,
            '}' | ']' if !quoted => depth -= 1,
            ',' if !quoted && depth == 1 => commas += 1,
            _ => {}
        }
    }
    commas
}

#[test]
fn record_of_n_fields_has_n_minus_one_commas() {
    for n in 0..6usize {
        let names = ["a", "b", "c", "d", "e"];
        let fields = (0..n)
            .map(|i| Field::new(names[i], Value::Sequence(vec![Value::U8(1), Value::U8(2)])))
            .collect();
        let text = render(&record(fields));
        assert_eq!(top_level_commas(&text), n.saturating_sub(1));
        assert!(text.starts_with('{'));
        assert!(text.ends_with('}'));
        assert!(!text.ends_with(",}"));
        assert!(!text.starts_with("{,"));
    }
}

#[test]
fn omitted_fields_do_not_count_for_commas() {
    let text = render(&record(vec![
        Field::omit_if_absent("a", Value::absent()),
        Field::new("b", Value::I32(1)),
        Field::omit_if_absent("c", Value::absent()),
        Field::omit_if_absent("d", Value::present(Value::I32(2))),
        Field::omit_if_absent("e", Value::absent()),
    ]));
    assert_eq!(text, "{b:1,d:2}");
    assert_eq!(top_level_commas(&text), 1);
}

#[test]
fn record_with_every_field_omitted_is_empty() {
    let text = render(&record(vec![
        Field::omit_if_absent("a", Value::absent()),
        Field::omit_if_absent("b", Value::absent()),
    ]));
    assert_eq!(text, "{}");
    assert_eq!(render(&record(vec![])), "{}");
}

#[test]
fn absent_optional_and_unit_struct_are_null() {
    assert_eq!(render(&Value::absent()), "null");
    assert_eq!(render(&Value::UnitStruct { name: "Marker" }), "null");
    assert_eq!(render(&Value::Unit), "null");
    assert_eq!(render(&Value::absent()), render(&Value::UnitStruct { name: "Marker" }));
}

#[test]
fn absent_field_flagged_for_omission_leaves_no_trace() {
    let text = render(&record(vec![
        Field::omit_if_absent("a", Value::absent()),
        Field::new("b", Value::string("value")),
    ]));
    assert_eq!(text, r#"{b:"value"}"#);
    assert_ne!(text, r#"{,b:"value"}"#);
    assert_ne!(text, r#"{a:null,b:"value"}"#);
}

#[test]
fn absent_field_without_the_flag_is_null() {
    let text = render(&record(vec![
        Field::new("a", Value::absent()),
        Field::new("b", Value::string("value")),
    ]));
    assert_eq!(text, r#"{a:null,b:"value"}"#);
}

#[test]
fn unit_field_flagged_for_omission_is_still_written() {
    let text = render(&record(vec![Field::omit_if_absent("a", Value::Unit)]));
    assert_eq!(text, "{a:null}");
    assert!(Field::omit_if_absent("a", Value::Unit).is_visited());
    assert!(!Field::omit_if_absent("a", Value::absent()).is_visited());
    assert!(Field::new("a", Value::absent()).is_visited());
}

#[test]
fn unit_variant_is_bare_and_newtype_variant_is_wrapped() {
    let unit = Value::UnitVariant { name: "Enum", variant_index: 0, variant: "ItemA" };
    assert_eq!(render(&unit), "ItemA");

    let inner = Value::Sequence(vec![Value::I64(1), Value::string("x")]);
    let expected = format!("{{Something:{}}}", render(&inner));
    let wrapped = Value::NewtypeVariant {
        name: "Enum",
        variant_index: 1,
        variant: "Something",
        value: Box::new(inner),
    };
    assert_eq!(render(&wrapped), expected);
    assert_eq!(render(&wrapped), r#"{Something:[1,"x"]}"#);
}

#[test]
fn tuple_variant_and_struct_variant_are_wrapped() {
    let tuple = Value::TupleVariant {
        name: "Enum",
        variant_index: 0,
        variant: "Pair",
        items: vec![Value::I8(1), Value::I8(2)],
    };
    assert_eq!(render(&tuple), "{Pair:[1,2]}");
    let empty = Value::TupleVariant { name: "Enum", variant_index: 0, variant: "Pair", items: vec![] };
    assert_eq!(render(&empty), "{Pair:[]}");

    let fields = Value::StructVariant {
        name: "Enum",
        variant_index: 1,
        variant: "Point",
        fields: vec![
            Field::new("x", Value::I8(1)),
            Field::omit_if_absent("label", Value::absent()),
            Field::new("y", Value::I8(2)),
        ],
    };
    assert_eq!(render(&fields), "{Point:{x:1,y:2}}");
    let empty = Value::StructVariant {
        name: "Enum",
        variant_index: 1,
        variant: "Point",
        fields: vec![Field::omit_if_absent("label", Value::absent())],
    };
    assert_eq!(render(&empty), "{Point:{}}");
}

#[test]
fn list_of_unit_variants_is_a_list_of_bare_tokens() {
    let list = Value::Sequence(vec![
        Value::UnitVariant { name: "VariantEnum", variant_index: 0, variant: "ItemA" },
        Value::UnitVariant { name: "VariantEnum", variant_index: 1, variant: "ItemB" },
    ]);
    assert_eq!(render(&list), "[ItemA,ItemB]");
}

#[test]
fn values_compare_by_content() {
    let value = record(vec![Field::omit_if_absent("a", Value::absent())]);
    assert_eq!(value, record(vec![Field::omit_if_absent("a", Value::absent())]));
    assert_ne!(value, record(vec![Field::new("a", Value::absent())]));
    assert_eq!(Value::present(Value::Unit), Value::Optional(Some(Box::new(Value::Unit))));
}

#[test]
fn tuple_and_sequence_render_alike() {
    let items = || vec![Value::string("one"), Value::string("two")];
    assert_eq!(render(&Value::Tuple(items())), r#"["one","two"]"#);
    assert_eq!(render(&Value::Sequence(items())), r#"["one","two"]"#);
    assert_eq!(render(&Value::TupleStruct { name: "Pair", items: items() }), r#"["one","two"]"#);
}

#[test]
fn keyed_map_renders_as_the_record_of_the_same_entries() {
    let map = Value::KeyedMap(vec![
        Entry::new("a", Value::I32(1)),
        Entry::new("b", Value::Bool(false)),
    ]);
    let same = record(vec![Field::new("a", Value::I32(1)), Field::new("b", Value::Bool(false))]);
    assert_eq!(render(&map), "{a:1,b:false}");
    assert_eq!(render(&map), render(&same));
    assert_eq!(render(&Value::KeyedMap(vec![])), "{}");
}

#[test]
fn rendering_twice_gives_the_same_bytes() {
    let value = record(vec![
        Field::new("id", Value::U64(7)),
        Field::new(
            "tags",
            Value::Sequence(vec![
                Value::UnitVariant { name: "Tag", variant_index: 0, variant: "New" },
                Value::NewtypeVariant {
                    name: "Tag",
                    variant_index: 1,
                    variant: "Named",
                    value: Box::new(Value::string("x")),
                },
            ]),
        ),
        Field::omit_if_absent("note", Value::absent()),
    ]);
    let first = render(&value);
    let second = render(&value);
    assert_eq!(first.as_bytes(), second.as_bytes());
    assert_eq!(first, r#"{id:7,tags:[New,{Named:"x"}]}"#);
}

#[test]
fn nested_containers_keep_their_own_first_element() {
    let value = Value::Sequence(vec![
        Value::Sequence(vec![]),
        Value::Sequence(vec![Value::Sequence(vec![Value::I8(1)]), Value::Sequence(vec![])]),
        record(vec![Field::new("a", record(vec![Field::new("b", Value::Tuple(vec![]))]))]),
    ]);
    assert_eq!(render(&value), "[[],[[1],[]],{a:{b:[]}}]");
}

#[test]
fn present_optional_and_newtype_struct_are_transparent() {
    let value = Value::present(Value::NewtypeStruct {
        name: "Id",
        value: Box::new(Value::present(Value::U16(9))),
    });
    assert_eq!(render(&value), "9");
}

#[test]
fn scalars_render_as_their_tokens() {
    assert_eq!(render(&Value::Bool(false)), "false");
    assert_eq!(render(&Value::I8(-128)), "-128");
    assert_eq!(render(&Value::I16(i16::MAX)), "32767");
    assert_eq!(render(&Value::I32(-1)), "-1");
    assert_eq!(render(&Value::I64(i64::MIN)), "-9223372036854775808");
    assert_eq!(render(&Value::U8(0)), "0");
    assert_eq!(render(&Value::U16(1000)), "1000");
    assert_eq!(render(&Value::U32(u32::MAX)), "4294967295");
    assert_eq!(render(&Value::U64(u64::MAX)), "18446744073709551615");
    assert_eq!(render(&Value::F32(format!("{}", 2.25f32))), "2.25");
    assert_eq!(render(&Value::F64(format!("{}", f64::MIN_POSITIVE))).len(), 326);
    assert_eq!(render(&Value::Char('\'')), "'''");
    assert_eq!(render(&Value::string("")), "\"\"");
    assert_eq!(render(&Value::string("say \"hi\"")), "\"say \"hi\"\"");
    assert_eq!(render(&Value::string("\u{1f600}")), "\"\u{1f600}\"");
}
