//! Where rendered bytes go.

use vstd::prelude::*;
use vstd::utf8::encode_utf8;

use crate::text::{lemma_utf8_concat, lemma_utf8_empty};

verus! {

/// What a sink holds once `bytes` are appended to what it `held`. Of a sink
/// that does not say what it holds, that stays unsaid.
pub open spec fn extended(held: Option<Seq<u8>>, bytes: Seq<u8>) -> Option<Seq<u8>> {
    match held {
        Some(h) => Some(h + bytes),
        None => None,
    }
}

/// An append-only destination for bytes.
///
/// The engine only ever appends; it never reads back, seeks or flushes.
pub trait Sink {
    /// Everything the sink has accepted so far, for a sink that keeps track
    /// of it. A sink that does not say holds `None`.
    open spec fn contents(&self) -> Option<Seq<u8>> {
        None
    }

    /// Whether a write to this sink can never fail. A sink that does not
    /// say may fail.
    open spec fn infallible(&self) -> bool {
        false
    }

    /// Appends all of `bytes`, or reports why it could not.
    ///
    /// After a failure nothing is known of what the sink holds.
    fn write_all(&mut self, bytes: &[u8]) -> (r: Result<(), std::io::Error>)
        ensures
            r is Ok ==> final(self).contents() == extended(old(self).contents(), bytes@),
            old(self).infallible() ==> r is Ok && final(self).infallible(),
    ;
}

impl Sink for Vec<u8> {
    open spec fn contents(&self) -> Option<Seq<u8>> {
        Some(self@)
    }

    open spec fn infallible(&self) -> bool {
        true
    }

    fn write_all(&mut self, bytes: &[u8]) -> (r: Result<(), std::io::Error>) {
        self.extend_from_slice(bytes);
        assert(self@ =~= old(self)@ + bytes@);
        Ok(())
    }
}

/// The outcome of writing `text` to a sink: on success `after` holds what
/// `before` held followed by the UTF-8 bytes of `text`, as far as the sink
/// says what it holds, and a sink that cannot fail did succeed and still
/// cannot fail.
pub open spec fn wrote<W: Sink>(before: &W, after: &W, ok: bool, text: Seq<char>) -> bool {
    &&& ok ==> after.contents() == extended(before.contents(), encode_utf8(text))
    &&& before.infallible() ==> ok && after.infallible()
}

/// Writing nothing leaves a sink as it was.
pub proof fn lemma_wrote_nothing<W: Sink>(w: &W)
    ensures
        wrote(w, w, true, Seq::empty()),
{
    lemma_utf8_empty();
    if let Some(held) = w.contents() {
        assert(held + Seq::<u8>::empty() =~= held);
    }
}

/// Two writes in a row amount to one write of the joined text; the second
/// only happens if the first succeeded.
pub proof fn lemma_wrote_then<W: Sink>(
    a: &W,
    b: &W,
    c: &W,
    first: bool,
    second: bool,
    s: Seq<char>,
    t: Seq<char>,
)
    requires
        wrote(a, b, first, s),
        first ==> wrote(b, c, second, t),
    ensures
        wrote(a, c, first && second, s + t),
{
    lemma_utf8_concat(s, t);
    if let Some(held) = a.contents() {
        assert(held + encode_utf8(s) + encode_utf8(t) =~= held + (encode_utf8(s) + encode_utf8(t)));
    }
}

} // verus!
