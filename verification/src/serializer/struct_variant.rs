//! Variants that hold a record.

use vstd::prelude::*;

use crate::error::Error;
use crate::formatter::Formatter;
use crate::serializer::{Compount, emitted, lemma_appended_nothing, lemma_appended_then, object_closing, State};
use crate::sink::Sink;
use crate::text::separator;
use crate::value::{pair, Value};

verus! {

/// Writing the fields of a variant that holds a record.
pub trait SerializeStructVariant: Sized {
    /// Writes a field under its name.
    fn serialize_field(&mut self, key: &'static str, value: &Value) -> Result<(), Error>;

    /// Passes over a field that is left out. Nothing is written and the
    /// field does not count as the first.
    fn skip_field(&mut self, key: &'static str) -> Result<(), Error>;

    /// Closes the object of the fields, unless it was closed on opening,
    /// and then the object that wraps it.
    fn end(self) -> Result<(), Error>;
}

impl<'a, W: Sink, F: Formatter> SerializeStructVariant for Compount<'a, W, F> {
    fn serialize_field(&mut self, key: &'static str, value: &Value) -> (r: Result<(), Error>)
        ensures
            emitted(
                *old(self)->ser,
                *final(self)->ser,
                r,
                separator(old(self)->state == State::First) + pair(key@, value.text()),
            ),
            r is Ok ==> final(self)->state == State::Rest,
            *final(final(self)->ser) == *final(old(self)->ser),
        decreases value, 4int,
    {
        super::record::SerializeStruct::serialize_field(self, key, value)
    }

    fn skip_field(&mut self, key: &'static str) -> (r: Result<(), Error>)
        ensures
            r is Ok,
            *final(self)->ser == *old(self)->ser,
            final(self)->state == old(self)->state,
            *final(final(self)->ser) == *final(old(self)->ser),
    {
        Ok(())
    }

    fn end(self) -> (r: Result<(), Error>)
        ensures
            emitted(
                *old(self->ser),
                *final(self->ser),
                r,
                object_closing(self->state) + seq!['}'],
            ),
    {
        match self {
            Compount::Container { ser, state } => {
                let ghost s0 = *ser;
                match state {
                    State::Empty => {
                        proof {
                            lemma_appended_nothing(*ser);
                        }
                    },
                    _ => ser.formatter.end_object(&mut ser.writer).map_err(Error::io)?,
                }
                let ghost s1 = *ser;
                ser.formatter.end_object_value(&mut ser.writer).map_err(Error::io)?;
                let r = ser.formatter.end_object(&mut ser.writer).map_err(Error::io);
                proof {
                    if r is Ok {
                        lemma_appended_then(s0, s1, *ser, object_closing(state), seq!['}']);
                    }
                }
                r
            },
        }
    }
}

} // verus!
