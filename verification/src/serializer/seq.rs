//! Arrays.

use vstd::prelude::*;

use crate::error::Error;
use crate::formatter::Formatter;
use crate::serializer::{array_closing, Compount, emitted, lemma_appended_nothing, lemma_appended_then, State};
use crate::sink::Sink;
use crate::text::separator;
use crate::value::Value;

verus! {

/// Writing the elements of an array, one call per element.
pub trait SerializeSeq: Sized {
    /// Writes one element, after a comma unless it is the first.
    fn serialize_element(&mut self, value: &Value) -> Result<(), Error>;

    /// Closes the array, unless it was closed on opening.
    fn end(self) -> Result<(), Error>;
}

impl<'a, W: Sink, F: Formatter> SerializeSeq for Compount<'a, W, F> {
    fn serialize_element(&mut self, value: &Value) -> (r: Result<(), Error>)
        ensures
            emitted(
                *old(self)->ser,
                *final(self)->ser,
                r,
                separator(old(self)->state == State::First) + value.text(),
            ),
            r is Ok ==> final(self)->state == State::Rest,
            *final(final(self)->ser) == *final(old(self)->ser),
        decreases value, 1int,
    {
        match self {
            Compount::Container { ser, state } => {
                let ghost s0 = **ser;
                ser.formatter.begin_array_value(&mut ser.writer, *state == State::First).map_err(
                    Error::io,
                )?;
                let ghost s1 = **ser;

                *state = State::Rest;

                value.serialize(&mut **ser)?;
                proof {
                    lemma_appended_then(
                        s0,
                        s1,
                        **ser,
                        separator(old(self)->state == State::First),
                        value.text(),
                    );
                }

                ser.formatter.end_array_value(&mut ser.writer).map_err(Error::io)
            },
        }
    }

    fn end(self) -> (r: Result<(), Error>)
        ensures
            emitted(*old(self->ser), *final(self->ser), r, array_closing(self->state)),
    {
        match self {
            Compount::Container { ser, state } => match state {
                State::Empty => {
                    proof {
                        lemma_appended_nothing(*ser);
                    }
                    Ok(())
                },
                _ => ser.formatter.end_array(&mut ser.writer).map_err(Error::io),
            },
        }
    }
}

} // verus!
