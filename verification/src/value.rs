//! The data model: what a value is, and the text it renders to.

use vstd::prelude::*;

use crate::error::Error;
use crate::formatter::Formatter;
use crate::serializer::{
    appended, array_closing, array_opening, emitted, initial_state, lemma_appended_nothing,
    lemma_appended_then, object_closing, object_opening, variant_opening, Compount, Serializer,
    State,
};
use crate::sink::Sink;
use crate::text::{boolean, decimal, null, quoted, quoted_char, separator};

verus! {

/// One field of a record.
#[derive(Debug, PartialEq)]
pub struct Field {
    /// The key the field is written under.
    pub name: &'static str,
    /// What the field holds.
    pub value: Value,
    /// Whether the field is left out of the output while its value is an
    /// absent optional.
    pub omit_if_absent: bool,
}

/// One entry of a keyed map. A key is text and nothing else.
#[derive(Debug, PartialEq)]
pub struct Entry {
    /// The key, written as a bare identifier.
    pub key: String,
    /// What the key maps to.
    pub value: Value,
}

/// A node of the data that is rendered.
///
/// Type names and variant indexes travel with the value but never reach the
/// output.
#[derive(Debug, PartialEq)]
pub enum Value {
    /// `true` or `false`.
    Bool(bool),
    /// A signed integer of 8 bits.
    I8(i8),
    /// A signed integer of 16 bits.
    I16(i16),
    /// A signed integer of 32 bits.
    I32(i32),
    /// A signed integer of 64 bits.
    I64(i64),
    /// An unsigned integer of 8 bits.
    U8(u8),
    /// An unsigned integer of 16 bits.
    U16(u16),
    /// An unsigned integer of 32 bits.
    U32(u32),
    /// An unsigned integer of 64 bits.
    U64(u64),
    /// A 32-bit floating-point number, held as its shortest decimal text that
    /// reads back as the same number.
    F32(String),
    /// A 64-bit floating-point number, held as its shortest decimal text that
    /// reads back as the same number.
    F64(String),
    /// One character.
    Char(char),
    /// A string.
    Str(String),
    /// The unit value.
    Unit,
    /// A struct without fields.
    UnitStruct { name: &'static str },
    /// A value that may be absent.
    Optional(Option<Box<Value>>),
    /// A struct that wraps one value and is invisible in the output.
    NewtypeStruct { name: &'static str, value: Box<Value> },
    /// A list of values, of any length.
    Sequence(Vec<Value>),
    /// A list of values, of a fixed length.
    Tuple(Vec<Value>),
    /// A tuple with a name.
    TupleStruct { name: &'static str, items: Vec<Value> },
    /// Values under keys, in the order they are given.
    KeyedMap(Vec<Entry>),
    /// Values under field names, in the order of the fields.
    Record { name: &'static str, fields: Vec<Field> },
    /// A variant of an enum that holds nothing.
    UnitVariant { name: &'static str, variant_index: u32, variant: &'static str },
    /// A variant of an enum that holds one value.
    NewtypeVariant {
        name: &'static str,
        variant_index: u32,
        variant: &'static str,
        value: Box<Value>,
    },
    /// A variant of an enum that holds a tuple.
    TupleVariant {
        name: &'static str,
        variant_index: u32,
        variant: &'static str,
        items: Vec<Value>,
    },
    /// A variant of an enum that holds a record.
    StructVariant {
        name: &'static str,
        variant_index: u32,
        variant: &'static str,
        fields: Vec<Field>,
    },
}

/// Text between square brackets.
pub open spec fn array(inner: Seq<char>) -> Seq<char> {
    seq!['['] + inner + seq![']']
}

/// Text between braces.
pub open spec fn object(inner: Seq<char>) -> Seq<char> {
    seq!['{'] + inner + seq!['}']
}

/// A key, a colon and the text of what the key stands for. The key is bare:
/// no quotes, and no space after the colon.
pub open spec fn pair(key: Seq<char>, value: Seq<char>) -> Seq<char> {
    key + seq![':'] + value
}

/// The texts of `items` in order, with a comma between each two and none
/// after the last.
pub open spec fn elements(items: Seq<Value>) -> Seq<char>
    decreases items, 0int,
{
    if items.len() == 0 {
        Seq::empty()
    } else {
        elements(items.drop_last()) + separator(items.len() == 1) + items.last().text()
    }
}

/// The pairs of `entries` in order, with a comma between each two and none
/// after the last.
pub open spec fn mappings(entries: Seq<Entry>) -> Seq<char>
    decreases entries, 0int,
{
    if entries.len() == 0 {
        Seq::empty()
    } else {
        mappings(entries.drop_last()) + separator(entries.len() == 1) + pair(
            entries.last().key@,
            entries.last().value.text(),
        )
    }
}

/// How many of `fields` reach the output.
pub open spec fn visited_count(fields: Seq<Field>) -> nat
    decreases fields.len(),
{
    if fields.len() == 0 {
        0
    } else {
        visited_count(fields.drop_last()) + if fields.last().visited() {
            1nat
        } else {
            0nat
        }
    }
}

/// The pairs of the fields that reach the output, in order, with a comma
/// between each two and none after the last. A field that is left out
/// leaves no trace: no key, no `null`, no comma.
pub open spec fn members(fields: Seq<Field>) -> Seq<char>
    decreases fields, 0int,
{
    if fields.len() == 0 {
        Seq::empty()
    } else if !fields.last().visited() {
        members(fields.drop_last())
    } else {
        members(fields.drop_last()) + separator(visited_count(fields.drop_last()) == 0) + pair(
            fields.last().name@,
            fields.last().value.text(),
        )
    }
}

impl Field {
    /// Whether the field reaches the output: always, unless it is flagged
    /// to be left out while absent and its value is an absent optional.
    pub open spec fn visited(self) -> bool {
        !(self.omit_if_absent && self.value == Value::Optional(None))
    }
}

impl Value {
    /// The text the value renders to.
    pub open spec fn text(self) -> Seq<char>
        decreases self, 1int,
    {
        match self {
            Value::Bool(v) => boolean(v),
            Value::I8(v) => decimal(v as int),
            Value::I16(v) => decimal(v as int),
            Value::I32(v) => decimal(v as int),
            Value::I64(v) => decimal(v as int),
            Value::U8(v) => decimal(v as int),
            Value::U16(v) => decimal(v as int),
            Value::U32(v) => decimal(v as int),
            Value::U64(v) => decimal(v as int),
            Value::F32(v) => v@,
            Value::F64(v) => v@,
            Value::Char(v) => quoted_char(v),
            Value::Str(v) => quoted(v@),
            Value::Unit => null(),
            Value::UnitStruct { .. } => null(),
            Value::Optional(None) => null(),
            Value::Optional(Some(inner)) => inner.text(),
            Value::NewtypeStruct { value, .. } => value.text(),
            Value::Sequence(items) => array(elements(items@)),
            Value::Tuple(items) => array(elements(items@)),
            Value::TupleStruct { items, .. } => array(elements(items@)),
            Value::KeyedMap(entries) => object(mappings(entries@)),
            Value::Record { fields, .. } => object(members(fields@)),
            Value::UnitVariant { variant, .. } => variant@,
            Value::NewtypeVariant { variant, value, .. } => object(pair(variant@, value.text())),
            Value::TupleVariant { variant, items, .. } => object(
                pair(variant@, array(elements(items@))),
            ),
            Value::StructVariant { variant, fields, .. } => object(
                pair(variant@, object(members(fields@))),
            ),
        }
    }

    /// Walks the value in document order and pushes every node into `ser`,
    /// which writes it out before the next one is looked at.
    ///
    /// On success the sink has received exactly the text of the value. A
    /// sink that cannot fail always leads to success.
    pub fn serialize<W: Sink, F: Formatter>(&self, ser: &mut Serializer<W, F>) -> (r: Result<
        (),
        Error,
    >)
        ensures
            emitted(*old(ser), *final(ser), r, self.text()),
        decreases self, 0int,
    {
        match self {
            Value::Bool(v) => ser.serialize_bool(*v),
            Value::I8(v) => ser.serialize_i8(*v),
            Value::I16(v) => ser.serialize_i16(*v),
            Value::I32(v) => ser.serialize_i32(*v),
            Value::I64(v) => ser.serialize_i64(*v),
            Value::U8(v) => ser.serialize_u8(*v),
            Value::U16(v) => ser.serialize_u16(*v),
            Value::U32(v) => ser.serialize_u32(*v),
            Value::U64(v) => ser.serialize_u64(*v),
            Value::F32(v) => ser.serialize_f32(v.as_str()),
            Value::F64(v) => ser.serialize_f64(v.as_str()),
            Value::Char(v) => ser.serialize_char(*v),
            Value::Str(v) => ser.serialize_str(v.as_str()),
            Value::Unit => ser.serialize_unit(),
            Value::UnitStruct { name } => ser.serialize_unit_struct(name),
            Value::Optional(None) => ser.serialize_none(),
            Value::Optional(Some(inner)) => ser.serialize_some(inner),
            Value::NewtypeStruct { name, value } => ser.serialize_newtype_struct(name, value),
            Value::UnitVariant { name, variant_index, variant } => ser.serialize_unit_variant(
                name,
                *variant_index,
                variant,
            ),
            Value::NewtypeVariant { name, variant_index, variant, value } => {
                proof {
                    assert(variant_opening(variant@) + value.text() + seq!['}'] =~= object(
                        pair(variant@, value.text()),
                    ));
                }
                ser.serialize_newtype_variant(name, *variant_index, variant, value)
            },
            Value::Sequence(items) => write_array(ArrayKind::Sequence, items, ser),
            Value::Tuple(items) => write_array(ArrayKind::Tuple, items, ser),
            Value::TupleStruct { name, items } => write_array(
                ArrayKind::TupleStruct { name },
                items,
                ser,
            ),
            Value::TupleVariant { name, variant_index, variant, items } => write_array(
                ArrayKind::TupleVariant { name, variant_index: *variant_index, variant },
                items,
                ser,
            ),
            Value::KeyedMap(entries) => write_keyed_map(entries, ser),
            Value::Record { name, fields } => write_record(RecordKind::Record { name }, fields, ser),
            Value::StructVariant { name, variant_index, variant, fields } => write_record(
                RecordKind::StructVariant { name, variant_index: *variant_index, variant },
                fields,
                ser,
            ),
        }
    }
}

impl Field {
    /// A field that is always written.
    pub fn new(name: &'static str, value: Value) -> (f: Field)
        ensures
            f == (Field { name, value, omit_if_absent: false }),
    {
        Field { name, value, omit_if_absent: false }
    }

    /// A field that is left out while its value is an absent optional.
    pub fn omit_if_absent(name: &'static str, value: Value) -> (f: Field)
        ensures
            f == (Field { name, value, omit_if_absent: true }),
    {
        Field { name, value, omit_if_absent: true }
    }

    /// Whether the field reaches the output.
    pub fn is_visited(&self) -> (b: bool)
        ensures
            b == self.visited(),
    {
        match &self.value {
            Value::Optional(None) => !self.omit_if_absent,
            _ => true,
        }
    }
}

impl Entry {
    /// An entry under `key`.
    pub fn new(key: &str, value: Value) -> (e: Entry)
        ensures
            e.key@ == key@,
            e.value == value,
    {
        Entry { key: key.to_owned(), value }
    }
}

impl Value {
    /// A string value.
    pub fn string(text: &str) -> (v: Value)
        ensures
            v matches Value::Str(s) && s@ == text@,
    {
        Value::Str(text.to_owned())
    }

    /// An optional that holds `value`.
    pub fn present(value: Value) -> (v: Value)
        ensures
            v == Value::Optional(Some(Box::new(value))),
    {
        Value::Optional(Some(Box::new(value)))
    }

    /// An optional that holds nothing.
    pub fn absent() -> (v: Value)
        ensures
            v == Value::Optional(None),
    {
        Value::Optional(None)
    }
}

/// The four things that are written as an array, each with what its
/// protocol wants to know on opening.
#[derive(Clone, Copy)]
enum ArrayKind {
    Sequence,
    Tuple,
    TupleStruct { name: &'static str },
    TupleVariant { name: &'static str, variant_index: u32, variant: &'static str },
}

/// The two things that are written as an object of named fields, each with
/// what its protocol wants to know on opening.
#[derive(Clone, Copy)]
enum RecordKind {
    Record { name: &'static str },
    StructVariant { name: &'static str, variant_index: u32, variant: &'static str },
}

impl ArrayKind {
    /// The text of the whole, given the text between the brackets: the
    /// array, which a variant wraps in an object under its name.
    spec fn whole(self, inner: Seq<char>) -> Seq<char> {
        match self {
            ArrayKind::TupleVariant { variant, .. } => object(pair(variant@, array(inner))),
            _ => array(inner),
        }
    }
}

impl RecordKind {
    /// The text of the whole, given the text between the braces: the
    /// object, which a variant wraps in another object under its name.
    spec fn whole(self, inner: Seq<char>) -> Seq<char> {
        match self {
            RecordKind::StructVariant { variant, .. } => object(pair(variant@, object(inner))),
            RecordKind::Record { .. } => object(inner),
        }
    }
}

/// No more fields of a prefix are visited than of the whole.
proof fn lemma_visited_count_prefix(fields: Seq<Field>, i: int)
    requires
        0 <= i <= fields.len(),
    ensures
        visited_count(fields.take(i)) <= visited_count(fields),
    decreases fields.len() - i,
{
    if i < fields.len() {
        lemma_visited_count_prefix(fields, i + 1);
        assert(fields.take(i + 1).drop_last() =~= fields.take(i));
    } else {
        assert(fields.take(i) =~= fields);
    }
}

/// Where no field is visited, nothing is written for the fields.
proof fn lemma_no_members(fields: Seq<Field>)
    requires
        visited_count(fields) == 0,
    ensures
        members(fields).len() == 0,
    decreases fields.len(),
{
    if fields.len() > 0 {
        lemma_no_members(fields.drop_last());
    }
}

/// Counts the fields that reach the output.
fn count_visited(fields: &Vec<Field>) -> (n: usize)
    ensures
        n == visited_count(fields@),
{
    let mut n: usize = 0;
    let mut i: usize = 0;
    while i < fields.len()
        invariant
            i <= fields.len(),
            n == visited_count(fields@.take(i as int)),
            n <= i,
        decreases fields.len() - i,
    {
        proof {
            assert(fields@.take(i as int + 1).drop_last() =~= fields@.take(i as int));
        }
        if fields[i].is_visited() {
            n += 1;
        }
        i += 1;
    }
    proof {
        assert(fields@.take(i as int) =~= fields@);
    }
    n
}

/// Pushes the elements of an array through its handle, one after the other.
fn write_elements<'a, W: Sink, F: Formatter>(
    items: &Vec<Value>,
    handle: &mut Compount<'a, W, F>,
    kind: ArrayKind,
) -> (r: Result<(), Error>)
    requires
        old(handle)->state == initial_state(Some(items.len())),
    ensures
        emitted(*old(handle)->ser, *final(handle)->ser, r, elements(items@)),
        r is Ok ==> final(handle)->state == (if items.len() == 0 {
            State::Empty
        } else {
            State::Rest
        }),
        *final(final(handle)->ser) == *final(old(handle)->ser),
    decreases items, 5int,
{
    let ghost s0 = *handle->ser;
    proof {
        lemma_appended_nothing(s0);
    }
    let mut i: usize = 0;
    while i < items.len()
        invariant
            i <= items.len(),
            appended(s0, *handle->ser, elements(items@.take(i as int))),
            handle->state == (if i == 0 {
                initial_state(Some(items.len()))
            } else {
                State::Rest
            }),
            *final(handle->ser) == *final(old(handle)->ser),
            s0 == *old(handle)->ser,
        decreases items.len() - i,
    {
        let ghost s1 = *handle->ser;
        let ghost first = handle->state == State::First;
        let r = match kind {
            ArrayKind::Sequence => crate::serializer::SerializeSeq::serialize_element(
                handle,
                &items[i],
            ),
            ArrayKind::Tuple => crate::serializer::SerializeTuple::serialize_element(
                handle,
                &items[i],
            ),
            ArrayKind::TupleStruct { .. } => crate::serializer::SerializeTupleStruct::serialize_field(
                handle,
                &items[i],
            ),
            ArrayKind::TupleVariant { .. } => crate::serializer::SerializeTupleVariant::serialize_field(
                handle,
                &items[i],
            ),
        };
        r?;
        proof {
            let done = items@.take(i as int);
            let next = items@.take(i as int + 1);
            assert(next.drop_last() =~= done);
            lemma_appended_then(
                s0,
                s1,
                *handle->ser,
                elements(done),
                separator(first) + items@[i as int].text(),
            );
            assert(elements(done) + (separator(first) + items@[i as int].text()) =~= elements(
                next,
            ));
        }
        i += 1;
    }
    proof {
        assert(items@.take(i as int) =~= items@);
    }
    Ok(())
}

/// Pushes the entries of a keyed map through its handle, one after the
/// other.
fn write_entries<'a, W: Sink, F: Formatter>(
    entries: &Vec<Entry>,
    handle: &mut Compount<'a, W, F>,
) -> (r: Result<(), Error>)
    requires
        old(handle)->state == initial_state(Some(entries.len())),
    ensures
        emitted(*old(handle)->ser, *final(handle)->ser, r, mappings(entries@)),
        r is Ok ==> final(handle)->state == (if entries.len() == 0 {
            State::Empty
        } else {
            State::Rest
        }),
        entries.len() == 0 ==> mappings(entries@).len() == 0,
        *final(final(handle)->ser) == *final(old(handle)->ser),
    decreases entries, 5int,
{
    let ghost s0 = *handle->ser;
    proof {
        lemma_appended_nothing(s0);
    }
    let mut i: usize = 0;
    while i < entries.len()
        invariant
            i <= entries.len(),
            appended(s0, *handle->ser, mappings(entries@.take(i as int))),
            handle->state == (if i == 0 {
                initial_state(Some(entries.len()))
            } else {
                State::Rest
            }),
            *final(handle->ser) == *final(old(handle)->ser),
            s0 == *old(handle)->ser,
        decreases entries.len() - i,
    {
        let ghost s1 = *handle->ser;
        let ghost first = handle->state == State::First;
        let entry = &entries[i];
        crate::serializer::SerializeMap::serialize_entry(
            handle,
            entry.key.as_str(),
            &entry.value,
        )?;
        proof {
            let done = entries@.take(i as int);
            let next = entries@.take(i as int + 1);
            let written = pair(entry.key@, entry.value.text());
            assert(next.drop_last() =~= done);
            lemma_appended_then(s0, s1, *handle->ser, mappings(done), separator(first) + written);
            assert(mappings(done) + (separator(first) + written) =~= mappings(next));
        }
        i += 1;
    }
    proof {
        assert(entries@.take(i as int) =~= entries@);
    }
    Ok(())
}

/// Pushes the fields of a record through its handle, one after the other.
/// A field that is left out is passed over, not written.
fn write_fields<'a, W: Sink, F: Formatter>(
    fields: &Vec<Field>,
    handle: &mut Compount<'a, W, F>,
    kind: RecordKind,
) -> (r: Result<(), Error>)
    requires
        old(handle)->state == (if visited_count(fields@) == 0 {
            State::Empty
        } else {
            State::First
        }),
    ensures
        emitted(*old(handle)->ser, *final(handle)->ser, r, members(fields@)),
        r is Ok ==> final(handle)->state == (if visited_count(fields@) == 0 {
            State::Empty
        } else {
            State::Rest
        }),
        visited_count(fields@) == 0 ==> members(fields@).len() == 0,
        *final(final(handle)->ser) == *final(old(handle)->ser),
    decreases fields, 5int,
{
    let ghost s0 = *handle->ser;
    proof {
        lemma_appended_nothing(s0);
        if visited_count(fields@) == 0 {
            lemma_no_members(fields@);
        }
    }
    let mut i: usize = 0;
    while i < fields.len()
        invariant
            i <= fields.len(),
            appended(s0, *handle->ser, members(fields@.take(i as int))),
            handle->state == (if visited_count(fields@.take(i as int)) == 0 {
                old(handle)->state
            } else {
                State::Rest
            }),
            old(handle)->state == (if visited_count(fields@) == 0 {
                State::Empty
            } else {
                State::First
            }),
            *final(handle->ser) == *final(old(handle)->ser),
            s0 == *old(handle)->ser,
        decreases fields.len() - i,
    {
        let ghost s1 = *handle->ser;
        let ghost first = handle->state == State::First;
        let ghost done = fields@.take(i as int);
        let ghost next = fields@.take(i as int + 1);
        let field = &fields[i];
        proof {
            assert(next.drop_last() =~= done);
            lemma_visited_count_prefix(fields@, i as int + 1);
        }
        if field.is_visited() {
            let r = match kind {
                RecordKind::Record { .. } => crate::serializer::SerializeStruct::serialize_field(
                    handle,
                    field.name,
                    &field.value,
                ),
                RecordKind::StructVariant { .. } => crate::serializer::SerializeStructVariant::serialize_field(
                    handle,
                    field.name,
                    &field.value,
                ),
            };
            r?;
            proof {
                let written = pair(field.name@, field.value.text());
                lemma_appended_then(
                    s0,
                    s1,
                    *handle->ser,
                    members(done),
                    separator(first) + written,
                );
                assert(members(done) + (separator(first) + written) =~= members(next));
            }
        } else {
            let r = match kind {
                RecordKind::Record { .. } => crate::serializer::SerializeStruct::skip_field(
                    handle,
                    field.name,
                ),
                RecordKind::StructVariant { .. } => crate::serializer::SerializeStructVariant::skip_field(
                    handle,
                    field.name,
                ),
            };
            r?;
        }
        i += 1;
    }
    proof {
        assert(fields@.take(i as int) =~= fields@);
    }
    Ok(())
}

/// Writes what is written as an array: opens it as its kind asks, pushes the
/// elements, and closes what was opened.
fn write_array<W: Sink, F: Formatter>(
    kind: ArrayKind,
    items: &Vec<Value>,
    ser: &mut Serializer<W, F>,
) -> (r: Result<(), Error>)
    ensures
        emitted(*old(ser), *final(ser), r, kind.whole(elements(items@))),
    decreases items, 6int,
{
    let ghost s0 = *ser;
    let mut handle = match kind {
        ArrayKind::Sequence => ser.serialize_seq(Some(items.len()))?,
        ArrayKind::Tuple => ser.serialize_tuple(items.len())?,
        ArrayKind::TupleStruct { name } => ser.serialize_tuple_struct(name, items.len())?,
        ArrayKind::TupleVariant { name, variant_index, variant } => ser.serialize_tuple_variant(
            name,
            variant_index,
            variant,
            items.len(),
        )?,
    };
    let ghost s1 = *handle->ser;
    write_elements(items, &mut handle, kind)?;
    let ghost s2 = *handle->ser;
    let ghost state = handle->state;
    let r = match kind {
        ArrayKind::Sequence => crate::serializer::SerializeSeq::end(handle),
        ArrayKind::Tuple => crate::serializer::SerializeTuple::end(handle),
        ArrayKind::TupleStruct { .. } => crate::serializer::SerializeTupleStruct::end(handle),
        ArrayKind::TupleVariant { .. } => crate::serializer::SerializeTupleVariant::end(handle),
    };
    proof {
        if r is Ok {
            let n = Some(items.len());
            match kind {
                ArrayKind::TupleVariant { variant, .. } => {
                    let opening = variant_opening(variant@) + array_opening(n);
                    let closing = array_closing(state) + seq!['}'];
                    lemma_appended_then(s0, s1, s2, opening, elements(items@));
                    lemma_appended_then(s0, s2, *ser, opening + elements(items@), closing);
                    assert(opening + elements(items@) + closing =~= kind.whole(elements(items@)));
                },
                _ => {
                    let opening = array_opening(n);
                    let closing = array_closing(state);
                    lemma_appended_then(s0, s1, s2, opening, elements(items@));
                    lemma_appended_then(s0, s2, *ser, opening + elements(items@), closing);
                    assert(opening + elements(items@) + closing =~= kind.whole(elements(items@)));
                },
            }
        }
    }
    r
}

/// Writes a keyed map: an object of the entries.
fn write_keyed_map<W: Sink, F: Formatter>(entries: &Vec<Entry>, ser: &mut Serializer<W, F>) -> (r:
    Result<(), Error>)
    ensures
        emitted(*old(ser), *final(ser), r, object(mappings(entries@))),
    decreases entries, 6int,
{
    let ghost s0 = *ser;
    let mut handle = ser.serialize_map(Some(entries.len()))?;
    let ghost s1 = *handle->ser;
    write_entries(entries, &mut handle)?;
    let ghost s2 = *handle->ser;
    let ghost state = handle->state;
    let r = crate::serializer::SerializeMap::end(handle);
    proof {
        if r is Ok {
            let opening = object_opening(Some(entries.len()));
            let closing = object_closing(state);
            lemma_appended_then(s0, s1, s2, opening, mappings(entries@));
            lemma_appended_then(s0, s2, *ser, opening + mappings(entries@), closing);
            assert(opening + mappings(entries@) + closing =~= object(mappings(entries@)));
        }
    }
    r
}

/// Writes what is written as an object of named fields: opens it as its
/// kind asks, announcing only the fields that are not left out, pushes the
/// fields, and closes what was opened.
fn write_record<W: Sink, F: Formatter>(
    kind: RecordKind,
    fields: &Vec<Field>,
    ser: &mut Serializer<W, F>,
) -> (r: Result<(), Error>)
    ensures
        emitted(*old(ser), *final(ser), r, kind.whole(members(fields@))),
    decreases fields, 6int,
{
    let len = count_visited(fields);
    let ghost s0 = *ser;
    let mut handle = match kind {
        RecordKind::Record { name } => ser.serialize_struct(name, len)?,
        RecordKind::StructVariant { name, variant_index, variant } => ser.serialize_struct_variant(
            name,
            variant_index,
            variant,
            len,
        )?,
    };
    let ghost s1 = *handle->ser;
    write_fields(fields, &mut handle, kind)?;
    let ghost s2 = *handle->ser;
    let ghost state = handle->state;
    let r = match kind {
        RecordKind::Record { .. } => crate::serializer::SerializeStruct::end(handle),
        RecordKind::StructVariant { .. } => crate::serializer::SerializeStructVariant::end(handle),
    };
    proof {
        if r is Ok {
            let n = Some(len);
            match kind {
                RecordKind::StructVariant { variant, .. } => {
                    let opening = variant_opening(variant@) + object_opening(n);
                    let closing = object_closing(state) + seq!['}'];
                    lemma_appended_then(s0, s1, s2, opening, members(fields@));
                    lemma_appended_then(s0, s2, *ser, opening + members(fields@), closing);
                    assert(opening + members(fields@) + closing =~= kind.whole(members(fields@)));
                },
                RecordKind::Record { .. } => {
                    let opening = object_opening(n);
                    let closing = object_closing(state);
                    lemma_appended_then(s0, s1, s2, opening, members(fields@));
                    lemma_appended_then(s0, s2, *ser, opening + members(fields@), closing);
                    assert(opening + members(fields@) + closing =~= kind.whole(members(fields@)));
                },
            }
        }
    }
    r
}

} // verus!
