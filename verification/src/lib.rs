//! Renders structured values as GraphQL input literals: object keys and enum
//! variants are bare identifiers, strings are quoted, and the output carries
//! no insignificant whitespace.
//!
//! A [`Value`] is walked once, in document order, and pushed node by node
//! into a [`Serializer`], which asks a [`Formatter`] for every token and
//! appends it to a [`Sink`] right away. [`to_string_pretty`] does all of this
//! against an in-memory buffer and hands back the text.

pub mod error;
pub mod formatter;
pub mod laws;
pub mod serializer;
pub mod sink;
pub mod text;
pub mod value;

pub use error::{Error, ErrorView};
pub use formatter::{
    format_escaped_str, format_key, to_string_pretty, CompactFormatter, Formatter, PrettyFormatter,
};
pub use serializer::{
    Compount, SerializeMap, SerializeSeq, SerializeStruct, SerializeStructVariant, SerializeTuple,
    SerializeTupleStruct, SerializeTupleVariant, Serializer, State,
};
pub use sink::Sink;
pub use value::{Entry, Field, Value};
