//! Variants that hold a tuple.

use vstd::prelude::*;

use crate::error::Error;
use crate::formatter::Formatter;
use crate::serializer::{array_closing, Compount, emitted, lemma_appended_nothing, lemma_appended_then, State};
use crate::sink::Sink;
use crate::text::separator;
use crate::value::Value;

verus! {

/// Writing the fields of a variant that holds a tuple.
pub trait SerializeTupleVariant: Sized {
    /// Writes one field, after a comma unless it is the first.
    fn serialize_field(&mut self, value: &Value) -> Result<(), Error>;

    /// Closes the array, unless it was closed on opening, and then the
    /// object that wraps it.
    fn end(self) -> Result<(), Error>;
}

impl<'a, W: Sink, F: Formatter> SerializeTupleVariant for Compount<'a, W, F> {
    fn serialize_field(&mut self, value: &Value) -> (r: Result<(), Error>)
        ensures
            emitted(
                *old(self)->ser,
                *final(self)->ser,
                r,
                separator(old(self)->state == State::First) + value.text(),
            ),
            r is Ok ==> final(self)->state == State::Rest,
            *final(final(self)->ser) == *final(old(self)->ser),
        decreases value, 2int,
    {
        super::seq::SerializeSeq::serialize_element(self, value)
    }

    fn end(self) -> (r: Result<(), Error>)
        ensures
            emitted(
                *old(self->ser),
                *final(self->ser),
                r,
                array_closing(self->state) + seq!['}'],
            ),
    {
        match self {
            Compount::Container { ser, state } => {
                let ghost s0 = *ser;
                match state {
                    State::Empty => {
                        proof {
                            lemma_appended_nothing(*ser);
                        }
                    },
                    _ => ser.formatter.end_array(&mut ser.writer).map_err(Error::io)?,
                }
                let ghost s1 = *ser;

                ser.formatter.end_object_value(&mut ser.writer).map_err(Error::io)?;
                let r = ser.formatter.end_object(&mut ser.writer).map_err(Error::io);
                proof {
                    if r is Ok {
                        lemma_appended_then(s0, s1, *ser, array_closing(state), seq!['}']);
                    }
                }
                r
            },
        }
    }
}

} // verus!
