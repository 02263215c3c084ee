//! How each scalar and each piece of punctuation is turned into bytes.

use vstd::prelude::*;

use crate::sink::{lemma_wrote_nothing, lemma_wrote_then, wrote, Sink};
use crate::text::{boolean, decimal, null, quoted, quoted_char, separator};

mod compact;
mod pretty;

pub use compact::CompactFormatter;
pub use pretty::{to_string_pretty, PrettyFormatter};

verus! {

/// The decimal text of an integer, as `itoa::Buffer::format` prints it: the
/// digits of its magnitude without leading zeros, after a minus sign when it
/// is negative.
#[verifier::external_body]
fn format_integer(value: i128) -> (s: String)
    ensures
        s@ == decimal(value as int),
{
    let mut buffer = itoa::Buffer::new();
    buffer.format(value).to_owned()
}

/// A string that holds the one character `value`, as `char::to_string`
/// gives it.
#[verifier::external_body]
fn char_text(value: char) -> (s: String)
    ensures
        s@ == seq![value],
{
    value.to_string()
}

/// Writes an object key: the raw text, without quotes.
pub fn format_key<W: Sink, F: Formatter>(writer: &mut W, formatter: &mut F, value: &str) -> (r:
    Result<(), std::io::Error>)
    ensures
        wrote(old(writer), final(writer), r is Ok, value@),
        *final(formatter) == *old(formatter),
{
    formatter.write_string(writer, value)
}

/// Writes a string value: the raw text between double quotes.
pub fn format_escaped_str<W: Sink, F: Formatter>(
    writer: &mut W,
    formatter: &mut F,
    value: &str,
) -> (r: Result<(), std::io::Error>)
    ensures
        wrote(old(writer), final(writer), r is Ok, quoted(value@)),
        *final(formatter) == *old(formatter),
{
    let ghost w0 = *writer;
    formatter.begin_string(writer)?;
    let ghost w1 = *writer;
    format_escaped_str_contents(writer, formatter, value)?;
    let ghost w2 = *writer;
    let r = formatter.end_string(writer);
    proof {
        lemma_wrote_then(&w0, &w1, &w2, true, true, seq!['"'], value@);
        lemma_wrote_then(&w0, &w2, &*writer, true, r is Ok, seq!['"'] + value@, seq!['"']);
    }
    r
}

/// Writes what stands between the quotes of a string value: the raw text.
/// Quotes, backslashes and control characters in it are written as they are.
fn format_escaped_str_contents<W: Sink, F: Formatter>(
    writer: &mut W,
    formatter: &mut F,
    value: &str,
) -> (r: Result<(), std::io::Error>)
    ensures
        wrote(old(writer), final(writer), r is Ok, value@),
        *final(formatter) == *old(formatter),
{
    formatter.write_string(writer, value)
}

/// The byte-emission policy: how primitives are rendered and how containers
/// are punctuated.
///
/// A formatter keeps no state of its own between calls; the serializer tells
/// it whether an element is the first of its container.
pub trait Formatter: Sized {
    /// Writes `value` in decimal: no leading zeros, a sign only when it is
    /// negative.
    fn write_i8<W: Sink>(&mut self, writer: &mut W, value: i8) -> (r: Result<(), std::io::Error>)
        ensures
            wrote(old(writer), final(writer), r is Ok, decimal(value as int)),
            *final(self) == *old(self),
    {
        let s = format_integer(value as i128);
        writer.write_all(s.as_str().as_bytes())
    }

    /// Writes `value` in decimal: no leading zeros, a sign only when it is
    /// negative.
    fn write_i16<W: Sink>(&mut self, writer: &mut W, value: i16) -> (r: Result<(), std::io::Error>)
        ensures
            wrote(old(writer), final(writer), r is Ok, decimal(value as int)),
            *final(self) == *old(self),
    {
        let s = format_integer(value as i128);
        writer.write_all(s.as_str().as_bytes())
    }

    /// Writes `value` in decimal: no leading zeros, a sign only when it is
    /// negative.
    fn write_i32<W: Sink>(&mut self, writer: &mut W, value: i32) -> (r: Result<(), std::io::Error>)
        ensures
            wrote(old(writer), final(writer), r is Ok, decimal(value as int)),
            *final(self) == *old(self),
    {
        let s = format_integer(value as i128);
        writer.write_all(s.as_str().as_bytes())
    }

    /// Writes `value` in decimal: no leading zeros, a sign only when it is
    /// negative.
    fn write_i64<W: Sink>(&mut self, writer: &mut W, value: i64) -> (r: Result<(), std::io::Error>)
        ensures
            wrote(old(writer), final(writer), r is Ok, decimal(value as int)),
            *final(self) == *old(self),
    {
        let s = format_integer(value as i128);
        writer.write_all(s.as_str().as_bytes())
    }

    /// Writes `value` in decimal: no leading zeros, a sign only when it is
    /// negative.
    fn write_u8<W: Sink>(&mut self, writer: &mut W, value: u8) -> (r: Result<(), std::io::Error>)
        ensures
            wrote(old(writer), final(writer), r is Ok, decimal(value as int)),
            *final(self) == *old(self),
    {
        let s = format_integer(value as i128);
        writer.write_all(s.as_str().as_bytes())
    }

    /// Writes `value` in decimal: no leading zeros, a sign only when it is
    /// negative.
    fn write_u16<W: Sink>(&mut self, writer: &mut W, value: u16) -> (r: Result<(), std::io::Error>)
        ensures
            wrote(old(writer), final(writer), r is Ok, decimal(value as int)),
            *final(self) == *old(self),
    {
        let s = format_integer(value as i128);
        writer.write_all(s.as_str().as_bytes())
    }

    /// Writes `value` in decimal: no leading zeros, a sign only when it is
    /// negative.
    fn write_u32<W: Sink>(&mut self, writer: &mut W, value: u32) -> (r: Result<(), std::io::Error>)
        ensures
            wrote(old(writer), final(writer), r is Ok, decimal(value as int)),
            *final(self) == *old(self),
    {
        let s = format_integer(value as i128);
        writer.write_all(s.as_str().as_bytes())
    }

    /// Writes `value` in decimal: no leading zeros, a sign only when it is
    /// negative.
    fn write_u64<W: Sink>(&mut self, writer: &mut W, value: u64) -> (r: Result<(), std::io::Error>)
        ensures
            wrote(old(writer), final(writer), r is Ok, decimal(value as int)),
            *final(self) == *old(self),
    {
        let s = format_integer(value as i128);
        writer.write_all(s.as_str().as_bytes())
    }

    /// Writes a 32-bit floating-point number, handed over as its shortest
    /// decimal text that reads back as the same number.
    fn write_f32<W: Sink>(&mut self, writer: &mut W, value: &str) -> (r: Result<(), std::io::Error>)
        ensures
            wrote(old(writer), final(writer), r is Ok, value@),
            *final(self) == *old(self),
    {
        writer.write_all(value.as_bytes())
    }

    /// Writes a 64-bit floating-point number, handed over as its shortest
    /// decimal text that reads back as the same number.
    fn write_f64<W: Sink>(&mut self, writer: &mut W, value: &str) -> (r: Result<(), std::io::Error>)
        ensures
            wrote(old(writer), final(writer), r is Ok, value@),
            *final(self) == *old(self),
    {
        writer.write_all(value.as_bytes())
    }

    /// Writes `true` or `false`.
    fn write_bool<W: Sink>(&mut self, writer: &mut W, value: bool) -> (r: Result<(), std::io::Error>)
        ensures
            wrote(old(writer), final(writer), r is Ok, boolean(value)),
            *final(self) == *old(self),
    {
        proof {
            reveal_strlit("true");
            reveal_strlit("false");
            assert("true"@ =~= boolean(true));
            assert("false"@ =~= boolean(false));
        }
        let output = if value {
            "true"
        } else {
            "false"
        };
        writer.write_all(output.as_bytes())
    }

    /// Writes `null`.
    fn write_null<W: Sink>(&mut self, writer: &mut W) -> (r: Result<(), std::io::Error>)
        ensures
            wrote(old(writer), final(writer), r is Ok, null()),
            *final(self) == *old(self),
    {
        proof {
            reveal_strlit("null");
            assert("null"@ =~= null());
        }
        writer.write_all("null".as_bytes())
    }

    /// Writes a character between single quotes, without escaping it.
    fn write_char<W: Sink>(&mut self, writer: &mut W, value: char) -> (r: Result<(), std::io::Error>)
        ensures
            wrote(old(writer), final(writer), r is Ok, quoted_char(value)),
            *final(self) == *old(self),
    {
        let mut output = String::from_str("'");
        output.append(char_text(value).as_str());
        output.append("'");
        proof {
            reveal_strlit("'");
            assert(output@ =~= quoted_char(value));
        }
        writer.write_all(output.as_str().as_bytes())
    }

    /// Opens an object.
    fn begin_object<W: Sink>(&mut self, writer: &mut W) -> (r: Result<(), std::io::Error>)
        ensures
            wrote(old(writer), final(writer), r is Ok, seq!['{']),
            *final(self) == *old(self),
    {
        proof {
            reveal_strlit("{");
            assert("{"@ =~= seq!['{']);
        }
        writer.write_all("{".as_bytes())
    }

    /// Closes an object.
    fn end_object<W: Sink>(&mut self, writer: &mut W) -> (r: Result<(), std::io::Error>)
        ensures
            wrote(old(writer), final(writer), r is Ok, seq!['}']),
            *final(self) == *old(self),
    {
        proof {
            reveal_strlit("}");
            assert("}"@ =~= seq!['}']);
        }
        writer.write_all("}".as_bytes())
    }

    /// Opens an array.
    fn begin_array<W: Sink>(&mut self, writer: &mut W) -> (r: Result<(), std::io::Error>)
        ensures
            wrote(old(writer), final(writer), r is Ok, seq!['[']),
            *final(self) == *old(self),
    {
        proof {
            reveal_strlit("[");
            assert("["@ =~= seq!['[']);
        }
        writer.write_all("[".as_bytes())
    }

    /// Closes an array.
    fn end_array<W: Sink>(&mut self, writer: &mut W) -> (r: Result<(), std::io::Error>)
        ensures
            wrote(old(writer), final(writer), r is Ok, seq![']']),
            *final(self) == *old(self),
    {
        proof {
            reveal_strlit("]");
            assert("]"@ =~= seq![']']);
        }
        writer.write_all("]".as_bytes())
    }

    /// Opens a string value.
    fn begin_string<W: Sink>(&mut self, writer: &mut W) -> (r: Result<(), std::io::Error>)
        ensures
            wrote(old(writer), final(writer), r is Ok, seq!['"']),
            *final(self) == *old(self),
    {
        proof {
            reveal_strlit("\"");
            assert("\""@ =~= seq!['"']);
        }
        writer.write_all("\"".as_bytes())
    }

    /// Writes the raw text of a string: nothing is escaped and nothing is
    /// added around it.
    fn write_string<W: Sink>(&mut self, writer: &mut W, value: &str) -> (r: Result<(), std::io::Error>)
        ensures
            wrote(old(writer), final(writer), r is Ok, value@),
            *final(self) == *old(self),
    {
        writer.write_all(value.as_bytes())
    }

    /// Closes a string value.
    fn end_string<W: Sink>(&mut self, writer: &mut W) -> (r: Result<(), std::io::Error>)
        ensures
            wrote(old(writer), final(writer), r is Ok, seq!['"']),
            *final(self) == *old(self),
    {
        proof {
            reveal_strlit("\"");
            assert("\""@ =~= seq!['"']);
        }
        writer.write_all("\"".as_bytes())
    }

    /// Comes before every object key: a comma unless the key is the first of
    /// its object.
    fn begin_object_key<W: Sink>(&mut self, writer: &mut W, first: bool) -> (r: Result<
        (),
        std::io::Error,
    >)
        ensures
            wrote(old(writer), final(writer), r is Ok, separator(first)),
            first ==> r is Ok && *final(writer) == *old(writer),
            *final(self) == *old(self),
    {
        if !first {
            proof {
                reveal_strlit(",");
                assert(","@ =~= seq![',']);
            }
            writer.write_all(",".as_bytes())
        } else {
            proof {
                lemma_wrote_nothing(&*writer);
            }
            Ok(())
        }
    }

    /// Comes after every object key; writes nothing.
    fn end_object_key<W: Sink>(&mut self, writer: &mut W) -> (r: Result<(), std::io::Error>)
        ensures
            r is Ok,
            *final(writer) == *old(writer),
            *final(self) == *old(self),
    {
        Ok(())
    }

    /// Comes before every object value: the colon after the key.
    fn begin_object_value<W: Sink>(&mut self, writer: &mut W) -> (r: Result<(), std::io::Error>)
        ensures
            wrote(old(writer), final(writer), r is Ok, seq![':']),
            *final(self) == *old(self),
    {
        proof {
            reveal_strlit(":");
            assert(":"@ =~= seq![':']);
        }
        writer.write_all(":".as_bytes())
    }

    /// Comes after every object value; writes nothing.
    fn end_object_value<W: Sink>(&mut self, writer: &mut W) -> (r: Result<(), std::io::Error>)
        ensures
            r is Ok,
            *final(writer) == *old(writer),
            *final(self) == *old(self),
    {
        Ok(())
    }

    /// Comes before every array element: a comma unless the element is the
    /// first of its array.
    fn begin_array_value<W: Sink>(&mut self, writer: &mut W, first: bool) -> (r: Result<
        (),
        std::io::Error,
    >)
        ensures
            wrote(old(writer), final(writer), r is Ok, separator(first)),
            first ==> r is Ok && *final(writer) == *old(writer),
            *final(self) == *old(self),
    {
        if first {
            proof {
                lemma_wrote_nothing(&*writer);
            }
            Ok(())
        } else {
            proof {
                reveal_strlit(",");
                assert(","@ =~= seq![',']);
            }
            writer.write_all(",".as_bytes())
        }
    }

    /// Comes after every array element; writes nothing.
    fn end_array_value<W: Sink>(&mut self, writer: &mut W) -> (r: Result<(), std::io::Error>)
        ensures
            r is Ok,
            *final(writer) == *old(writer),
            *final(self) == *old(self),
    {
        Ok(())
    }
}

} // verus!
