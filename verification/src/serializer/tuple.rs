//! Tuples.

use vstd::prelude::*;

use crate::error::Error;
use crate::formatter::Formatter;
use crate::serializer::{array_closing, Compount, emitted, State};
use crate::sink::Sink;
use crate::text::separator;
use crate::value::Value;

verus! {

/// Writing the elements of a tuple. On the wire a tuple is an array.
pub trait SerializeTuple: Sized {
    /// Writes one element, after a comma unless it is the first.
    fn serialize_element(&mut self, value: &Value) -> Result<(), Error>;

    /// Closes the array, unless it was closed on opening.
    fn end(self) -> Result<(), Error>;
}

impl<'a, W: Sink, F: Formatter> SerializeTuple for Compount<'a, W, F> {
    fn serialize_element(&mut self, value: &Value) -> (r: Result<(), Error>)
        ensures
            emitted(
                *old(self)->ser,
                *final(self)->ser,
                r,
                separator(old(self)->state == State::First) + value.text(),
            ),
            r is Ok ==> final(self)->state == State::Rest,
            *final(final(self)->ser) == *final(old(self)->ser),
        decreases value, 2int,
    {
        super::seq::SerializeSeq::serialize_element(self, value)
    }

    fn end(self) -> (r: Result<(), Error>)
        ensures
            emitted(*old(self->ser), *final(self->ser), r, array_closing(self->state)),
    {
        super::seq::SerializeSeq::end(self)
    }
}

} // verus!
