//! The compact profile.

use vstd::prelude::*;

use super::Formatter;

verus! {

/// Renders without any insignificant whitespace.
#[derive(Clone, Copy, Debug)]
pub struct CompactFormatter;

impl Formatter for CompactFormatter {

}

} // verus!
