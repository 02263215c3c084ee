//! Records.

use vstd::prelude::*;

use crate::error::Error;
use crate::formatter::Formatter;
use crate::serializer::{Compount, emitted, object_closing, State};
use crate::sink::Sink;
use crate::text::separator;
use crate::value::{pair, Value};

verus! {

/// Writing the fields of a record.
pub trait SerializeStruct: Sized {
    /// Writes a field under its name.
    fn serialize_field(&mut self, key: &'static str, value: &Value) -> Result<(), Error>;

    /// Passes over a field that is left out. Nothing is written and the
    /// field does not count as the first.
    fn skip_field(&mut self, key: &'static str) -> Result<(), Error>;

    /// Closes the object, unless it was closed on opening.
    fn end(self) -> Result<(), Error>;
}

impl<'a, W: Sink, F: Formatter> SerializeStruct for Compount<'a, W, F> {
    fn serialize_field(&mut self, key: &'static str, value: &Value) -> (r: Result<(), Error>)
        ensures
            emitted(
                *old(self)->ser,
                *final(self)->ser,
                r,
                separator(old(self)->state == State::First) + pair(key@, value.text()),
            ),
            r is Ok ==> final(self)->state == State::Rest,
            *final(final(self)->ser) == *final(old(self)->ser),
        decreases value, 3int,
    {
        super::map::SerializeMap::serialize_entry(self, key, value)
    }

    fn skip_field(&mut self, key: &'static str) -> (r: Result<(), Error>)
        ensures
            r is Ok,
            *final(self)->ser == *old(self)->ser,
            final(self)->state == old(self)->state,
            *final(final(self)->ser) == *final(old(self)->ser),
    {
        Ok(())
    }

    fn end(self) -> (r: Result<(), Error>)
        ensures
            emitted(*old(self->ser), *final(self->ser), r, object_closing(self->state)),
    {
        super::map::SerializeMap::end(self)
    }
}

} // verus!
