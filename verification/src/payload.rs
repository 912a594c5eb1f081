//! The payload extractor.
//!
//! What follows the header of a container is its payload, stored scrambled.
//! Extraction decodes the header only to learn where it ends, and hands out
//! the rest in plain form, one chunk at a time.

use vstd::prelude::*;
use vstd::slice::{slice_subrange, slice_to_vec};
use crate::bundle::{Magic, UpdateBundle};
use crate::error::DecodeError;
use crate::ota::OtaV1;
use crate::transform::{deobfuscate_in_place, lemma_transform_split, unscramble_seq};

verus! {

/// The number of payload bytes that are transformed at a time.
pub const CHUNK_LEN: usize = 8192;

/// The plain payload of a stream: every byte after the header of the
/// container that the stream starts with, unscrambled. A stream whose
/// header does not decode has no payload.
pub open spec fn spec_payload(data: Seq<u8>) -> Result<Seq<u8>, DecodeError> {
    match UpdateBundle::spec_decode(data) {
        Ok((_, end)) => Ok(unscramble_seq(data.subrange(end, data.len() as int))),
        Err(e) => Err(e),
    }
}

/// Appends to `writer` the plain form of the bytes of `data` from `from` on,
/// transforming one chunk at a time.
fn unscramble_into(data: &[u8], from: usize, writer: &mut Vec<u8>)
    requires
        from <= data@.len(),
    ensures
        final(writer)@ == old(writer)@ + unscramble_seq(
            data@.subrange(from as int, data@.len() as int),
        ),
{
    let total: usize = data.len();
    let mut at: usize = from;
    while at < total
        invariant
            total == data@.len(),
            from <= at <= total,
            writer@ == old(writer)@ + unscramble_seq(data@.subrange(from as int, at as int)),
        decreases total - at,
    {
        let n: usize = if total - at < CHUNK_LEN {
            total - at
        } else {
            CHUNK_LEN
        };
        let mut chunk: Vec<u8> = slice_to_vec(slice_subrange(data, at, at + n));
        deobfuscate_in_place(chunk.as_mut_slice());
        proof {
            lemma_transform_split(
                data@.subrange(from as int, at as int),
                data@.subrange(at as int, at + n),
            );
        }
        writer.extend_from_slice(chunk.as_slice());
        at = at + n;
    }
}

/// Appends the plain payload of the stream `data` to `writer`.
///
/// Nothing is written when the header does not decode.
pub fn dump_payload(data: &[u8], writer: &mut Vec<u8>) -> (r: Result<(), DecodeError>)
    ensures
        match r {
            Ok(_) => spec_payload(data@) is Ok && final(writer)@ == old(writer)@ + spec_payload(
                data@,
            ).unwrap(),
            Err(e) => spec_payload(data@) == Err::<Seq<u8>, DecodeError>(e) && final(writer)@
                == old(writer)@,
        },
{
    let (_, end) = UpdateBundle::decode(data)?;
    proof {
        UpdateBundle::lemma_decode_in_bounds(data@);
    }
    unscramble_into(data, end, writer);
    Ok(())
}

/// The mathematical content of a `PayloadStream`.
pub enum StreamView {
    /// The header is not complete; these are the bytes seen so far.
    Header(Seq<u8>),
    /// The header lies behind; every further byte is payload.
    Payload,
}

impl StreamView {
    /// The state before the first byte.
    pub open spec fn start() -> StreamView {
        StreamView::Header(Seq::empty())
    }

    /// The state after one more piece of the stream, with the plain payload
    /// bytes that the piece sets free.
    ///
    /// While the header is open, the piece joins the bytes seen so far. Once
    /// these decode, the header is closed and what follows it is set free.
    /// From then on every piece is payload.
    pub open spec fn feed(self, chunk: Seq<u8>) -> (StreamView, Seq<u8>) {
        match self {
            StreamView::Payload => (StreamView::Payload, unscramble_seq(chunk)),
            StreamView::Header(seen) => match UpdateBundle::spec_decode(seen + chunk) {
                Ok((_, end)) => (
                    StreamView::Payload,
                    unscramble_seq((seen + chunk).subrange(end, (seen + chunk).len() as int)),
                ),
                Err(_) => (StreamView::Header(seen + chunk), Seq::empty()),
            },
        }
    }

    /// The state after the pieces `chunks` in order, with all the plain
    /// payload bytes that they set free.
    pub open spec fn feed_all(self, chunks: Seq<Seq<u8>>) -> (StreamView, Seq<u8>)
        decreases chunks.len(),
    {
        if chunks.len() == 0 {
            (self, Seq::empty())
        } else {
            let (mid, out) = self.feed_all(chunks.drop_last());
            let (end, more) = mid.feed(chunks.last());
            (end, out + more)
        }
    }

    /// What can be said while more of the stream may follow: a failure that
    /// no further byte can mend, or nothing wrong so far.
    pub open spec fn so_far(self) -> Result<(), DecodeError> {
        match self {
            StreamView::Payload => Ok(()),
            StreamView::Header(seen) => match UpdateBundle::spec_decode(seen) {
                Err(e) if !e.is_truncation() => Err(e),
                _ => Ok(()),
            },
        }
    }

    /// What can be said once the stream has ended: the failure of the
    /// header to decode, or success.
    pub open spec fn at_end(self) -> Result<(), DecodeError> {
        match self {
            StreamView::Payload => Ok(()),
            StreamView::Header(seen) => match UpdateBundle::spec_decode(seen) {
                Err(e) => Err(e),
                Ok(_) => Ok(()),
            },
        }
    }
}

/// A payload extraction that takes its stream piece by piece, so that no
/// more than the header and one piece is held at a time.
///
/// The caller reads the stream in pieces of any size, feeds each piece, and
/// writes out what the feed set free. When the stream has ended, `finish`
/// tells whether a header was found at all.
pub struct PayloadStream {
    header: Vec<u8>,
    past_header: bool,
}

impl View for PayloadStream {
    type V = StreamView;

    closed spec fn view(&self) -> StreamView {
        if self.past_header {
            StreamView::Payload
        } else {
            StreamView::Header(self.header@)
        }
    }
}

impl PayloadStream {
    /// An extraction that has seen no byte yet.
    pub fn new() -> (stream: PayloadStream)
        ensures
            stream@ == StreamView::start(),
    {
        PayloadStream { header: Vec::new(), past_header: false }
    }

    /// Takes the next piece of the stream and appends to `writer` the plain
    /// payload bytes that it sets free.
    ///
    /// Fails as soon as the bytes seen cannot be the beginning of any
    /// container, whatever may follow them.
    pub fn feed(&mut self, chunk: &[u8], writer: &mut Vec<u8>) -> (r: Result<(), DecodeError>)
        ensures
            final(self)@ == old(self)@.feed(chunk@).0,
            final(writer)@ == old(writer)@ + old(self)@.feed(chunk@).1,
            r == final(self)@.so_far(),
    {
        if self.past_header {
            unscramble_into(chunk, 0, writer);
            Ok(())
        } else {
            self.header.extend_from_slice(chunk);
            assert(self.header@ == old(self).header@ + chunk@);
            match UpdateBundle::decode(self.header.as_slice()) {
                Ok((_, end)) => {
                    proof {
                        UpdateBundle::lemma_decode_in_bounds(self.header@);
                    }
                    unscramble_into(self.header.as_slice(), end, writer);
                    self.header = Vec::new();
                    self.past_header = true;
                    Ok(())
                },
                Err(e) => {
                    if e.is_truncation() {
                        Ok(())
                    } else {
                        Err(e)
                    }
                },
            }
        }
    }

    /// Closes the extraction at the end of the stream: fails with the
    /// failure of the header if the stream ended inside it.
    pub fn finish(&self) -> (r: Result<(), DecodeError>)
        ensures
            r == self@.at_end(),
    {
        if self.past_header {
            Ok(())
        } else {
            match UpdateBundle::decode(self.header.as_slice()) {
                Ok(_) => Ok(()),
                Err(e) => Err(e),
            }
        }
    }
}

/// Feeding a stream piece by piece, however it is cut into pieces, sets
/// free exactly the payload of the whole stream, and ends in the failure of
/// the whole stream when that has no payload.
pub proof fn lemma_stream_equals_whole(chunks: Seq<Seq<u8>>)
    ensures
        match StreamView::start().feed_all(chunks).0.at_end() {
            Ok(_) => spec_payload(chunks.flatten()) == Ok::<Seq<u8>, DecodeError>(
                StreamView::start().feed_all(chunks).1,
            ),
            Err(e) => spec_payload(chunks.flatten()) == Err::<Seq<u8>, DecodeError>(e)
                && StreamView::start().feed_all(chunks).1.len() == 0,
        },
{
    lemma_stream_tracks_whole(chunks);
}

/// After any pieces, an open header holds the whole of what was fed and has
/// set nothing free, and a closed header has set free the payload of the
/// whole of what was fed.
proof fn lemma_stream_tracks_whole(chunks: Seq<Seq<u8>>)
    ensures
        match StreamView::start().feed_all(chunks).0 {
            StreamView::Header(seen) => seen == chunks.flatten() && UpdateBundle::spec_decode(
                seen,
            ) is Err && StreamView::start().feed_all(chunks).1.len() == 0,
            StreamView::Payload => spec_payload(chunks.flatten()) == Ok::<Seq<u8>, DecodeError>(
                StreamView::start().feed_all(chunks).1,
            ),
        },
    decreases chunks.len(),
{
    if chunks.len() == 0 {
        UpdateBundle::lemma_decode_needs_tag(Seq::<u8>::empty());
    } else {
        let before = chunks.drop_last();
        let chunk = chunks.last();
        lemma_stream_tracks_whole(before);
        assert(chunks =~= before.push(chunk));
        before.lemma_flatten_push(chunk);
        let whole = chunks.flatten();
        let (mid, out) = StreamView::start().feed_all(before);
        match mid {
            StreamView::Header(seen) => {
                assert(seen + chunk == whole);
                assert(out + Seq::<u8>::empty() == Seq::<u8>::empty());
                if UpdateBundle::spec_decode(whole) is Ok {
                    let end = UpdateBundle::spec_decode(whole).unwrap().1;
                    UpdateBundle::lemma_decode_in_bounds(whole);
                    assert(out + unscramble_seq(whole.subrange(end, whole.len() as int))
                        == unscramble_seq(whole.subrange(end, whole.len() as int)));
                }
            },
            StreamView::Payload => {
                let head = before.flatten();
                let end = UpdateBundle::spec_decode(head).unwrap().1;
                UpdateBundle::lemma_decode_in_bounds(head);
                UpdateBundle::lemma_decode_extension(head, chunk);
                assert(whole.subrange(end, whole.len() as int) =~= head.subrange(
                    end,
                    head.len() as int,
                ) + chunk);
                lemma_transform_split(head.subrange(end, head.len() as int), chunk);
            },
        }
    }
}

/// After a complete record of the first update layout, the payload of a
/// stream is exactly what follows the record, unscrambled byte for byte and
/// unchanged in length.
pub proof fn lemma_payload_after_ota_v1(tag: Magic, record: Seq<u8>, rest: Seq<u8>)
    requires
        tag == Magic::Fc02 || tag == Magic::Fd03,
        record.len() == 44,
    ensures
        spec_payload(tag.bytes() + record + rest) == Ok::<Seq<u8>, DecodeError>(
            unscramble_seq(rest),
        ),
        unscramble_seq(rest).len() == rest.len(),
{
    let data = tag.bytes() + record + rest;
    tag.lemma_of_tag_bytes(data.subrange(0, 4));
    assert(data.subrange(0, 4) == tag.bytes());
    assert(OtaV1::spec_parse(data, 4) is Ok);
    assert(data.subrange(48, data.len() as int) == rest);
}

} // verus!
