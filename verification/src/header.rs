//! Decoding a header from a stream that arrives piece by piece.
//!
//! A header has no length field: how far it reaches is known only once it
//! decodes. A reader that takes its stream in pieces therefore decodes what it
//! has and, when that fails for want of bytes, asks for more.

use vstd::prelude::*;
use crate::bundle::{UpdateBundle, UpdateBundleView};
use crate::error::DecodeError;

verus! {

/// What the bytes `seen` of a stream tell while more may follow: the
/// container they hold, a failure that no further byte can mend, or nothing
/// yet.
pub open spec fn spec_so_far(seen: Seq<u8>) -> Option<Result<UpdateBundleView, DecodeError>> {
    match UpdateBundle::spec_decode(seen) {
        Ok((bundle, _)) => Some(Ok(bundle)),
        Err(e) => if e.is_truncation() {
            None
        } else {
            Some(Err(e))
        },
    }
}

/// What the bytes `seen` tell once the stream has ended: the container they
/// hold, or the failure to decode them.
pub open spec fn spec_at_end(seen: Seq<u8>) -> Result<UpdateBundleView, DecodeError> {
    match UpdateBundle::spec_decode(seen) {
        Ok((bundle, _)) => Ok(bundle),
        Err(e) => Err(e),
    }
}

/// What a stream tells before its end, it still tells at its end, however
/// it goes on.
pub proof fn lemma_so_far_holds_at_end(seen: Seq<u8>, more: Seq<u8>)
    requires
        spec_so_far(seen) is Some,
    ensures
        spec_at_end(seen + more) == spec_so_far(seen).unwrap(),
{
    UpdateBundle::lemma_decode_extension(seen, more);
}

/// A header decode that takes its stream piece by piece and holds no more of
/// it than the header needs.
///
/// The caller feeds each piece as it is read, and stops at the first answer.
/// When the stream ends without an answer, `finish` gives the failure.
pub struct HeaderStream {
    seen: Vec<u8>,
}

impl View for HeaderStream {
    type V = Seq<u8>;

    closed spec fn view(&self) -> Seq<u8> {
        self.seen@
    }
}

impl HeaderStream {
    /// A decode that has seen no byte yet.
    pub fn new() -> (stream: HeaderStream)
        ensures
            stream@ == Seq::<u8>::empty(),
    {
        HeaderStream { seen: Vec::new() }
    }

    /// Takes the next piece of the stream and tells what is known by now:
    /// `None` as long as the bytes seen are the beginning of a header that is
    /// not complete.
    pub fn feed(&mut self, chunk: &[u8]) -> (r: Option<Result<UpdateBundle, DecodeError>>)
        ensures
            final(self)@ == old(self)@ + chunk@,
            match r {
                None => spec_so_far(final(self)@) is None,
                Some(Ok(bundle)) => spec_so_far(final(self)@) == Some(
                    Ok::<UpdateBundleView, DecodeError>(bundle@),
                ),
                Some(Err(e)) => spec_so_far(final(self)@) == Some(
                    Err::<UpdateBundleView, DecodeError>(e),
                ),
            },
    {
        self.seen.extend_from_slice(chunk);
        match UpdateBundle::decode(self.seen.as_slice()) {
            Ok((bundle, _)) => Some(Ok(bundle)),
            Err(e) => if e.is_truncation() {
                None
            } else {
                Some(Err(e))
            },
        }
    }

    /// Closes the decode at the end of the stream: what was seen is all
    /// there is.
    pub fn finish(&self) -> (r: Result<UpdateBundle, DecodeError>)
        ensures
            match r {
                Ok(bundle) => spec_at_end(self@) == Ok::<UpdateBundleView, DecodeError>(bundle@),
                Err(e) => spec_at_end(self@) == Err::<UpdateBundleView, DecodeError>(e),
            },
    {
        match UpdateBundle::decode(self.seen.as_slice()) {
            Ok((bundle, _)) => Ok(bundle),
            Err(e) => Err(e),
        }
    }
}

} // verus!
