//! Keyed maps.

use vstd::prelude::*;

use crate::error::Error;
use crate::formatter::Formatter;
use crate::serializer::{Compount, emitted, lemma_appended_nothing, lemma_appended_then, MapKeySerializer, object_closing, State};
use crate::sink::Sink;
use crate::text::separator;
use crate::value::{pair, Value};

verus! {

/// Writing the entries of a keyed map, key and value in turn.
pub trait SerializeMap: Sized {
    /// Writes a key, bare, after a comma unless it is the first.
    fn serialize_key(&mut self, key: &str) -> Result<(), Error>;

    /// Writes the colon and the value that belongs to the key just written.
    fn serialize_value(&mut self, value: &Value) -> Result<(), Error>;

    /// Writes a key and its value.
    fn serialize_entry(&mut self, key: &str, value: &Value) -> Result<(), Error>;

    /// Closes the object, unless it was closed on opening.
    fn end(self) -> Result<(), Error>;
}

impl<'a, W: Sink, F: Formatter> SerializeMap for Compount<'a, W, F> {
    fn serialize_key(&mut self, key: &str) -> (r: Result<(), Error>)
        ensures
            emitted(
                *old(self)->ser,
                *final(self)->ser,
                r,
                separator(old(self)->state == State::First) + key@,
            ),
            r is Ok ==> final(self)->state == State::Rest,
            *final(final(self)->ser) == *final(old(self)->ser),
    {
        match self {
            Compount::Container { ser, state } => {
                let ghost s0 = **ser;
                ser.formatter.begin_object_key(&mut ser.writer, *state == State::First).map_err(
                    Error::io,
                )?;
                let ghost s1 = **ser;
                *state = State::Rest;

                MapKeySerializer { ser: &mut **ser }.serialize_str(key)?;
                proof {
                    lemma_appended_then(
                        s0,
                        s1,
                        **ser,
                        separator(old(self)->state == State::First),
                        key@,
                    );
                }
                ser.formatter.end_object_key(&mut ser.writer).map_err(Error::io)
            },
        }
    }

    fn serialize_value(&mut self, value: &Value) -> (r: Result<(), Error>)
        ensures
            emitted(*old(self)->ser, *final(self)->ser, r, seq![':'] + value.text()),
            final(self)->state == old(self)->state,
            *final(final(self)->ser) == *final(old(self)->ser),
        decreases value, 1int,
    {
        match self {
            Compount::Container { ser, .. } => {
                let ghost s0 = **ser;
                ser.formatter.begin_object_value(&mut ser.writer).map_err(Error::io)?;
                let ghost s1 = **ser;
                value.serialize(&mut **ser)?;
                proof {
                    lemma_appended_then(s0, s1, **ser, seq![':'], value.text());
                }
                ser.formatter.end_object_value(&mut ser.writer).map_err(Error::io)
            },
        }
    }

    fn serialize_entry(&mut self, key: &str, value: &Value) -> (r: Result<(), Error>)
        ensures
            emitted(
                *old(self)->ser,
                *final(self)->ser,
                r,
                separator(old(self)->state == State::First) + pair(key@, value.text()),
            ),
            r is Ok ==> final(self)->state == State::Rest,
            *final(final(self)->ser) == *final(old(self)->ser),
        decreases value, 2int,
    {
        let ghost s0 = *self->ser;
        let ghost lead = separator(self->state == State::First);
        self.serialize_key(key)?;
        let ghost s1 = *self->ser;
        let r = self.serialize_value(value);
        proof {
            if r is Ok {
                lemma_appended_then(s0, s1, *self->ser, lead + key@, seq![':'] + value.text());
                assert(lead + key@ + (seq![':'] + value.text()) =~= lead + pair(
                    key@,
                    value.text(),
                ));
            }
        }
        r
    }

    fn end(self) -> (r: Result<(), Error>)
        ensures
            emitted(*old(self->ser), *final(self->ser), r, object_closing(self->state)),
    {
        match self {
            Compount::Container { ser, state } => match state {
                State::Empty => {
                    proof {
                        lemma_appended_nothing(*ser);
                    }
                    Ok(())
                },
                _ => ser.formatter.end_object(&mut ser.writer).map_err(Error::io),
            },
        }
    }
}

} // verus!
