//! The pretty profile, and the crate's entry point.

use vstd::prelude::*;
use vstd::utf8::{encode_utf8, encode_utf8_decode_utf8, encode_utf8_valid_utf8, valid_utf8};

use super::Formatter;
use crate::error::Error;
use crate::serializer::Serializer;
use crate::value::Value;

verus! {

/// A formatter that carries an indent policy.
///
/// The policy is kept for a profile that lays its output out over several
/// lines; every token this formatter writes is the compact one.
#[allow(dead_code)]
pub struct PrettyFormatter<'a> {
    current_indent: usize,
    has_value: bool,
    indent: &'a [u8],
}

impl<'a> PrettyFormatter<'a> {
    /// The bytes that make up one level of indentation.
    pub closed spec fn indent(&self) -> Seq<u8> {
        self.indent@
    }

    /// How many levels deep the formatter currently is.
    pub closed spec fn current_indent(&self) -> nat {
        self.current_indent as nat
    }

    /// Whether the container being written has a value in it already.
    pub closed spec fn has_value(&self) -> bool {
        self.has_value
    }

    /// Whether the formatter is as `with_indent` makes it: at the outermost
    /// level, with no value seen.
    pub open spec fn fresh(&self, indent: Seq<u8>) -> bool {
        &&& self.indent() == indent
        &&& self.current_indent() == 0
        &&& !self.has_value()
    }

    /// A formatter that indents by one space.
    pub fn new() -> (f: Self)
        ensures
            f.fresh(seq![0x20u8]),
    {
        proof {
            reveal_strlit(" ");
            assert(" "@ =~= seq![' ']);
            vstd::utf8::is_ascii_chars_encode_utf8(" "@);
            assert(vstd::utf8::encode_utf8(" "@) =~= seq![0x20u8]);
        }
        PrettyFormatter::with_indent(" ".as_bytes())
    }

    /// A formatter that indents by `indent`.
    pub fn with_indent(indent: &'a [u8]) -> (f: Self)
        ensures
            f.fresh(indent@),
    {
        PrettyFormatter { current_indent: 0, has_value: false, indent }
    }
}

impl<'a> Default for PrettyFormatter<'a> {
    fn default() -> (f: Self)
        ensures
            f.fresh(seq![0x20u8]),
    {
        PrettyFormatter::new()
    }
}

impl<'a> Formatter for PrettyFormatter<'a> {

}

/// The string that `bytes` encode, as `String::from_utf8` gives it: there is
/// one exactly when the bytes are valid UTF-8, and its own bytes are then
/// the ones handed in.
#[verifier::external_body]
fn string_from_utf8(bytes: Vec<u8>) -> (r: Option<String>)
    ensures
        r is Some <==> valid_utf8(bytes@),
        r matches Some(s) ==> encode_utf8(s@) == bytes@,
{
    String::from_utf8(bytes).ok()
}

/// Renders `value` into a string.
///
/// The value is walked once and written into a buffer in memory through a
/// serializer of the pretty profile. The buffer cannot refuse a write and
/// only ever receives whole pieces of text, so the call always succeeds and
/// the string is exactly the text of the value.
pub fn to_string_pretty(value: &Value) -> (r: Result<String, Error>)
    ensures
        r matches Ok(s) && s@ == value.text(),
{
    let writer: Vec<u8> = Vec::with_capacity(128);

    let mut ser = Serializer::pretty(writer);
    value.serialize(&mut ser)?;

    let bytes = ser.into_inner();
    proof {
        assert(Seq::<u8>::empty() + encode_utf8(value.text()) =~= encode_utf8(value.text()));
        assert(bytes@ == encode_utf8(value.text()));
        encode_utf8_valid_utf8(value.text());
    }
    match string_from_utf8(bytes) {
        Some(string) => {
            proof {
                encode_utf8_decode_utf8(string@);
                encode_utf8_decode_utf8(value.text());
            }
            Ok(string)
        },
        None => Err(Error::custom("the rendered bytes are not valid UTF-8")),
    }
}

} // verus!
