//! The traversal engine: one call per node, in document order, each written
//! through the formatter into the sink before the call returns.

use vstd::prelude::*;
use vstd::utf8::encode_utf8;

use crate::error::Error;
use crate::formatter::{format_escaped_str, format_key, CompactFormatter, Formatter, PrettyFormatter};
use crate::sink::{extended, lemma_wrote_nothing, Sink};
use crate::text::{boolean, decimal, lemma_utf8_concat, null, quoted, quoted_char};
use crate::value::Value;

// One module for each container protocol: their methods share names, and a
// method of one protocol is only told from its namesakes where no other
// protocol is in scope.
mod map;
mod record;
mod seq;
mod struct_variant;
mod tuple;
mod tuple_struct;
mod tuple_variant;

pub use map::SerializeMap;
pub use record::SerializeStruct;
pub use seq::SerializeSeq;
pub use struct_variant::SerializeStructVariant;
pub use tuple::SerializeTuple;
pub use tuple_struct::SerializeTupleStruct;
pub use tuple_variant::SerializeTupleVariant;

verus! {

/// Writes values to a sink `W` in the notation that the formatter `F` sets.
///
/// A serializer holds nothing but its sink and its formatter; whatever is
/// known of a container that is being written lives in the container's
/// handle.
pub struct Serializer<W, F = CompactFormatter> {
    pub(crate) writer: W,
    pub(crate) formatter: F,
}

/// Where a container stands: closed already because it was announced empty,
/// open with nothing in it yet, or open with something in it.
#[derive(Clone, Copy, Debug, PartialEq, Eq, Structural)]
pub enum State {
    Empty,
    First,
    Rest,
}

/// The handle of a container that is being written. It borrows the
/// serializer until the container is closed.
pub enum Compount<'a, W: 'a, F: 'a> {
    Container { ser: &'a mut Serializer<W, F>, state: State },
}

/// The restricted serializer that object keys go through. A key is text, so
/// writing a string is all it can do.
pub(crate) struct MapKeySerializer<'a, W: 'a, F: 'a> {
    pub(crate) ser: &'a mut Serializer<W, F>,
}

impl<W, F> Serializer<W, F> {
    /// The sink.
    pub closed spec fn writer(self) -> W {
        self.writer
    }

    /// The formatter.
    pub closed spec fn formatter(self) -> F {
        self.formatter
    }
}

/// `after` is `before` with the UTF-8 bytes of `text` appended to its sink,
/// as far as the sink says what it holds. The formatter is the same, and a
/// sink that could not fail still cannot.
pub open spec fn appended<W: Sink, F>(
    before: Serializer<W, F>,
    after: Serializer<W, F>,
    text: Seq<char>,
) -> bool {
    &&& after.formatter() == before.formatter()
    &&& after.writer().contents() == extended(before.writer().contents(), encode_utf8(text))
    &&& before.writer().infallible() ==> after.writer().infallible()
}

/// A write failed on the way from `before` to `after`. That only happens to
/// a sink that can fail, and the error is the sink's. The formatter is the
/// same; of the sink's contents nothing is known.
pub open spec fn failed<W: Sink, F>(
    before: Serializer<W, F>,
    after: Serializer<W, F>,
    error: Error,
) -> bool {
    &&& after.formatter() == before.formatter()
    &&& !before.writer().infallible()
    &&& error@ is Io
}

/// The outcome of a step that is to write `text`: either all of it was
/// appended, or a write failed.
pub open spec fn emitted<W: Sink, F>(
    before: Serializer<W, F>,
    after: Serializer<W, F>,
    r: Result<(), Error>,
    text: Seq<char>,
) -> bool {
    match r {
        Ok(_) => appended(before, after, text),
        Err(e) => failed(before, after, e),
    }
}

/// The state a container starts in: empty only when it was announced to
/// hold exactly nothing.
pub open spec fn initial_state(len: Option<usize>) -> State {
    if len == Some(0usize) {
        State::Empty
    } else {
        State::First
    }
}

/// What opening an array writes: the bracket, and the closing one right
/// away when the array was announced empty.
pub open spec fn array_opening(len: Option<usize>) -> Seq<char> {
    if len == Some(0usize) {
        seq!['[', ']']
    } else {
        seq!['[']
    }
}

/// What closing an array writes: nothing when it was closed on opening.
pub open spec fn array_closing(state: State) -> Seq<char> {
    if state == State::Empty {
        Seq::empty()
    } else {
        seq![']']
    }
}

/// What opening an object writes: the brace, and the closing one right away
/// when the object was announced empty.
pub open spec fn object_opening(len: Option<usize>) -> Seq<char> {
    if len == Some(0usize) {
        seq!['{', '}']
    } else {
        seq!['{']
    }
}

/// What closing an object writes: nothing when it was closed on opening.
pub open spec fn object_closing(state: State) -> Seq<char> {
    if state == State::Empty {
        Seq::empty()
    } else {
        seq!['}']
    }
}

/// What opens the object that wraps a variant's payload: the brace, the
/// variant's name as a bare key, and the colon.
pub open spec fn variant_opening(variant: Seq<char>) -> Seq<char> {
    seq!['{'] + variant + seq![':']
}

/// Two appends in a row are one append of the joined text.
pub proof fn lemma_appended_then<W: Sink, F>(
    a: Serializer<W, F>,
    b: Serializer<W, F>,
    c: Serializer<W, F>,
    s: Seq<char>,
    t: Seq<char>,
)
    requires
        appended(a, b, s),
        appended(b, c, t),
    ensures
        appended(a, c, s + t),
{
    lemma_utf8_concat(s, t);
    if let Some(held) = a.writer().contents() {
        assert(held + encode_utf8(s) + encode_utf8(t) =~= held + (encode_utf8(s) + encode_utf8(t)));
    }
}

/// Appending nothing leaves a serializer as it was.
pub proof fn lemma_appended_nothing<W: Sink, F>(a: Serializer<W, F>)
    ensures
        appended(a, a, Seq::empty()),
{
    lemma_wrote_nothing(&a.writer());
}

impl<'a, W: Sink> Serializer<W, PrettyFormatter<'a>> {
    /// A serializer that writes to `writer` with the pretty profile's
    /// formatter.
    pub fn pretty(writer: W) -> (s: Self)
        ensures
            s.writer() == writer,
            s.formatter().fresh(seq![0x20u8]),
    {
        Serializer::with_formatter(writer, PrettyFormatter::new())
    }
}

impl<W: Sink, F: Formatter> Serializer<W, F> {
    /// A serializer that writes to `writer` as `formatter` says.
    pub fn with_formatter(writer: W, formatter: F) -> (s: Self)
        ensures
            s.writer() == writer,
            s.formatter() == formatter,
    {
        Serializer { writer, formatter }
    }

    /// Gives the sink back.
    pub fn into_inner(self) -> (writer: W)
        ensures
            writer == self.writer(),
    {
        self.writer
    }

    /// Writes `true` or `false`.
    pub fn serialize_bool(&mut self, v: bool) -> (r: Result<(), Error>)
        ensures
            emitted(*old(self), *final(self), r, boolean(v)),
    {
        self.formatter.write_bool(&mut self.writer, v).map_err(Error::io)
    }

    /// Writes an integer in decimal.
    pub fn serialize_i8(&mut self, v: i8) -> (r: Result<(), Error>)
        ensures
            emitted(*old(self), *final(self), r, decimal(v as int)),
    {
        self.formatter.write_i8(&mut self.writer, v).map_err(Error::io)
    }

    /// Writes an integer in decimal.
    pub fn serialize_i16(&mut self, v: i16) -> (r: Result<(), Error>)
        ensures
            emitted(*old(self), *final(self), r, decimal(v as int)),
    {
        self.formatter.write_i16(&mut self.writer, v).map_err(Error::io)
    }

    /// Writes an integer in decimal.
    pub fn serialize_i32(&mut self, v: i32) -> (r: Result<(), Error>)
        ensures
            emitted(*old(self), *final(self), r, decimal(v as int)),
    {
        self.formatter.write_i32(&mut self.writer, v).map_err(Error::io)
    }

    /// Writes an integer in decimal.
    pub fn serialize_i64(&mut self, v: i64) -> (r: Result<(), Error>)
        ensures
            emitted(*old(self), *final(self), r, decimal(v as int)),
    {
        self.formatter.write_i64(&mut self.writer, v).map_err(Error::io)
    }

    /// Writes an integer in decimal.
    pub fn serialize_u8(&mut self, v: u8) -> (r: Result<(), Error>)
        ensures
            emitted(*old(self), *final(self), r, decimal(v as int)),
    {
        self.formatter.write_u8(&mut self.writer, v).map_err(Error::io)
    }

    /// Writes an integer in decimal.
    pub fn serialize_u16(&mut self, v: u16) -> (r: Result<(), Error>)
        ensures
            emitted(*old(self), *final(self), r, decimal(v as int)),
    {
        self.formatter.write_u16(&mut self.writer, v).map_err(Error::io)
    }

    /// Writes an integer in decimal.
    pub fn serialize_u32(&mut self, v: u32) -> (r: Result<(), Error>)
        ensures
            emitted(*old(self), *final(self), r, decimal(v as int)),
    {
        self.formatter.write_u32(&mut self.writer, v).map_err(Error::io)
    }

    /// Writes an integer in decimal.
    pub fn serialize_u64(&mut self, v: u64) -> (r: Result<(), Error>)
        ensures
            emitted(*old(self), *final(self), r, decimal(v as int)),
    {
        self.formatter.write_u64(&mut self.writer, v).map_err(Error::io)
    }

    /// Writes a 32-bit floating-point number. The caller hands over its
    /// shortest decimal text that reads back as the same number, and that
    /// text is written as it is.
    pub fn serialize_f32(&mut self, v: &str) -> (r: Result<(), Error>)
        ensures
            emitted(*old(self), *final(self), r, v@),
    {
        self.formatter.write_f32(&mut self.writer, v).map_err(Error::io)
    }

    /// Writes a 64-bit floating-point number. The caller hands over its
    /// shortest decimal text that reads back as the same number, and that
    /// text is written as it is.
    pub fn serialize_f64(&mut self, v: &str) -> (r: Result<(), Error>)
        ensures
            emitted(*old(self), *final(self), r, v@),
    {
        self.formatter.write_f64(&mut self.writer, v).map_err(Error::io)
    }

    /// Writes a character between single quotes, unescaped.
    pub fn serialize_char(&mut self, v: char) -> (r: Result<(), Error>)
        ensures
            emitted(*old(self), *final(self), r, quoted_char(v)),
    {
        self.formatter.write_char(&mut self.writer, v).map_err(Error::io)
    }

    /// Writes a string between double quotes. The text passes through as it
    /// is: there is no escaping step.
    pub fn serialize_str(&mut self, v: &str) -> (r: Result<(), Error>)
        ensures
            emitted(*old(self), *final(self), r, quoted(v@)),
    {
        format_escaped_str(&mut self.writer, &mut self.formatter, v).map_err(Error::io)
    }

    /// Writes an absent optional: `null`, as for the unit value.
    pub fn serialize_none(&mut self) -> (r: Result<(), Error>)
        ensures
            emitted(*old(self), *final(self), r, null()),
    {
        self.serialize_unit()
    }

    /// Writes a present optional: the inner value and nothing else.
    pub fn serialize_some(&mut self, value: &Value) -> (r: Result<(), Error>)
        ensures
            emitted(*old(self), *final(self), r, value.text()),
        decreases value, 1int,
    {
        value.serialize(self)
    }

    /// Writes the unit value: `null`.
    pub fn serialize_unit(&mut self) -> (r: Result<(), Error>)
        ensures
            emitted(*old(self), *final(self), r, null()),
    {
        self.formatter.write_null(&mut self.writer).map_err(Error::io)
    }

    /// Writes a struct without fields: `null`, whatever its name.
    pub fn serialize_unit_struct(&mut self, name: &'static str) -> (r: Result<(), Error>)
        ensures
            emitted(*old(self), *final(self), r, null()),
    {
        self.formatter.write_null(&mut self.writer).map_err(Error::io)
    }

    /// Writes a variant without payload: its name as a bare token, with no
    /// quotes and no braces.
    pub fn serialize_unit_variant(
        &mut self,
        name: &'static str,
        variant_index: u32,
        variant: &'static str,
    ) -> (r: Result<(), Error>)
        ensures
            emitted(*old(self), *final(self), r, variant@),
    {
        self.formatter.write_string(&mut self.writer, variant).map_err(Error::io)
    }

    /// Writes a struct that wraps one value: the value itself, with nothing
    /// around it.
    pub fn serialize_newtype_struct(&mut self, name: &'static str, value: &Value) -> (r: Result<
        (),
        Error,
    >)
        ensures
            emitted(*old(self), *final(self), r, value.text()),
        decreases value, 1int,
    {
        value.serialize(self)
    }

    /// Writes a variant that wraps one value: an object with one entry, the
    /// variant's name as its bare key and the value under it.
    pub fn serialize_newtype_variant(
        &mut self,
        name: &'static str,
        variant_index: u32,
        variant: &'static str,
        value: &Value,
    ) -> (r: Result<(), Error>)
        ensures
            emitted(*old(self), *final(self), r, variant_opening(variant@) + value.text() + seq!['}']),
        decreases value, 1int,
    {
        let ghost s0 = *self;
        self.begin_variant(variant)?;
        let ghost s1 = *self;
        value.serialize(&mut *self)?;
        let ghost s2 = *self;
        self.formatter.end_object_value(&mut self.writer).map_err(Error::io)?;
        let r = self.formatter.end_object(&mut self.writer).map_err(Error::io);
        proof {
            if r is Ok {
                lemma_appended_then(s0, s1, s2, variant_opening(variant@), value.text());
                lemma_appended_then(
                    s0,
                    s2,
                    *self,
                    variant_opening(variant@) + value.text(),
                    seq!['}'],
                );
            }
        }
        r
    }

    /// Opens the object that wraps a variant's payload and leaves it at the
    /// point where the payload goes: after the brace, the variant's name as
    /// a bare key, and the colon.
    fn begin_variant(&mut self, variant: &str) -> (r: Result<(), Error>)
        ensures
            emitted(*old(self), *final(self), r, variant_opening(variant@)),
    {
        let ghost s0 = *self;
        self.formatter.begin_object(&mut self.writer).map_err(Error::io)?;
        let ghost s1 = *self;
        self.formatter.begin_object_key(&mut self.writer, true).map_err(Error::io)?;
        MapKeySerializer { ser: &mut *self }.serialize_str(variant)?;
        let ghost s2 = *self;
        self.formatter.end_object_key(&mut self.writer).map_err(Error::io)?;
        let r = self.formatter.begin_object_value(&mut self.writer).map_err(Error::io);
        proof {
            if r is Ok {
                lemma_appended_then(s0, s1, s2, seq!['{'], variant@);
                lemma_appended_then(s0, s2, *self, seq!['{'] + variant@, seq![':']);
            }
        }
        r
    }

    /// Opens an array. When `len` announces that nothing follows, the array
    /// is closed on the spot and the handle knows it.
    pub fn serialize_seq<'a>(&'a mut self, len: Option<usize>) -> (r: Result<
        Compount<'a, W, F>,
        Error,
    >)
        ensures
            match r {
                Ok(c) => {
                    &&& appended(*old(self), *c->ser, array_opening(len))
                    &&& c->state == initial_state(len)
                    &&& *final(c->ser) == *final(self)
                },
                Err(e) => failed(*old(self), *final(self), e),
            },
    {
        let ghost s0 = *self;
        self.formatter.begin_array(&mut self.writer).map_err(Error::io)?;
        let ghost s1 = *self;
        if len == Some(0) {
            self.formatter.end_array(&mut self.writer).map_err(Error::io)?;
            proof {
                lemma_appended_then(s0, s1, *self, seq!['['], seq![']']);
                assert(seq!['['] + seq![']'] =~= seq!['[', ']']);
            }
            Ok(Compount::Container { ser: self, state: State::Empty })
        } else {
            Ok(Compount::Container { ser: self, state: State::First })
        }
    }

    /// Opens a tuple: on the wire, an array.
    pub fn serialize_tuple<'a>(&'a mut self, len: usize) -> (r: Result<Compount<'a, W, F>, Error>)
        ensures
            match r {
                Ok(c) => {
                    &&& appended(*old(self), *c->ser, array_opening(Some(len)))
                    &&& c->state == initial_state(Some(len))
                    &&& *final(c->ser) == *final(self)
                },
                Err(e) => failed(*old(self), *final(self), e),
            },
    {
        self.serialize_seq(Some(len))
    }

    /// Opens a tuple struct: on the wire, an array; the name is not written.
    pub fn serialize_tuple_struct<'a>(&'a mut self, name: &'static str, len: usize) -> (r: Result<
        Compount<'a, W, F>,
        Error,
    >)
        ensures
            match r {
                Ok(c) => {
                    &&& appended(*old(self), *c->ser, array_opening(Some(len)))
                    &&& c->state == initial_state(Some(len))
                    &&& *final(c->ser) == *final(self)
                },
                Err(e) => failed(*old(self), *final(self), e),
            },
    {
        self.serialize_seq(Some(len))
    }

    /// Opens a variant that holds a tuple: the wrapping object up to its
    /// colon, then the array.
    pub fn serialize_tuple_variant<'a>(
        &'a mut self,
        name: &'static str,
        variant_index: u32,
        variant: &'static str,
        len: usize,
    ) -> (r: Result<Compount<'a, W, F>, Error>)
        ensures
            match r {
                Ok(c) => {
                    &&& appended(
                        *old(self),
                        *c->ser,
                        variant_opening(variant@) + array_opening(Some(len)),
                    )
                    &&& c->state == initial_state(Some(len))
                    &&& *final(c->ser) == *final(self)
                },
                Err(e) => failed(*old(self), *final(self), e),
            },
    {
        let ghost s0 = *self;
        self.begin_variant(variant)?;
        let ghost s1 = *self;
        let c = self.serialize_seq(Some(len))?;
        proof {
            lemma_appended_then(
                s0,
                s1,
                *c->ser,
                variant_opening(variant@),
                array_opening(Some(len)),
            );
        }
        Ok(c)
    }

    /// Opens an object. When `len` announces that nothing follows, the
    /// object is closed on the spot and the handle knows it.
    pub fn serialize_map<'a>(&'a mut self, len: Option<usize>) -> (r: Result<
        Compount<'a, W, F>,
        Error,
    >)
        ensures
            match r {
                Ok(c) => {
                    &&& appended(*old(self), *c->ser, object_opening(len))
                    &&& c->state == initial_state(len)
                    &&& *final(c->ser) == *final(self)
                },
                Err(e) => failed(*old(self), *final(self), e),
            },
    {
        let ghost s0 = *self;
        self.formatter.begin_object(&mut self.writer).map_err(Error::io)?;
        let ghost s1 = *self;
        if len == Some(0) {
            self.formatter.end_object(&mut self.writer).map_err(Error::io)?;
            proof {
                lemma_appended_then(s0, s1, *self, seq!['{'], seq!['}']);
                assert(seq!['{'] + seq!['}'] =~= seq!['{', '}']);
            }
            Ok(Compount::Container { ser: self, state: State::Empty })
        } else {
            Ok(Compount::Container { ser: self, state: State::First })
        }
    }

    /// Opens a record: on the wire, an object; the name is not written.
    /// `len` counts the fields that will be visited.
    pub fn serialize_struct<'a>(&'a mut self, name: &'static str, len: usize) -> (r: Result<
        Compount<'a, W, F>,
        Error,
    >)
        ensures
            match r {
                Ok(c) => {
                    &&& appended(*old(self), *c->ser, object_opening(Some(len)))
                    &&& c->state == initial_state(Some(len))
                    &&& *final(c->ser) == *final(self)
                },
                Err(e) => failed(*old(self), *final(self), e),
            },
    {
        self.serialize_map(Some(len))
    }

    /// Opens a variant that holds a record: the wrapping object up to its
    /// colon, then the object of the fields.
    pub fn serialize_struct_variant<'a>(
        &'a mut self,
        name: &'static str,
        variant_index: u32,
        variant: &'static str,
        len: usize,
    ) -> (r: Result<Compount<'a, W, F>, Error>)
        ensures
            match r {
                Ok(c) => {
                    &&& appended(
                        *old(self),
                        *c->ser,
                        variant_opening(variant@) + object_opening(Some(len)),
                    )
                    &&& c->state == initial_state(Some(len))
                    &&& *final(c->ser) == *final(self)
                },
                Err(e) => failed(*old(self), *final(self), e),
            },
    {
        let ghost s0 = *self;
        self.begin_variant(variant)?;
        let ghost s1 = *self;
        let c = self.serialize_map(Some(len))?;
        proof {
            lemma_appended_then(
                s0,
                s1,
                *c->ser,
                variant_opening(variant@),
                object_opening(Some(len)),
            );
        }
        Ok(c)
    }
}

impl<'a, W: Sink, F: Formatter> MapKeySerializer<'a, W, F> {
    /// Writes a key: the text as it is, without quotes.
    pub(crate) fn serialize_str(self, v: &str) -> (r: Result<(), Error>)
        ensures
            emitted(*old(self.ser), *final(self.ser), r, v@),
    {
        format_key(&mut self.ser.writer, &mut self.ser.formatter, v).map_err(Error::io)
    }
}

} // verus!
