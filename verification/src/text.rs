//! Best-effort text from raw bytes.
//!
//! The strings of a container are diagnostic text. Bytes that are not valid
//! UTF-8 are replaced rather than rejected, so turning bytes into text never
//! fails.

use vstd::prelude::*;
use vstd::utf8::{decode_utf8, pop_first_scalar, valid_utf8};

verus! {

/// The text that `String::from_utf8_lossy` makes of `bytes`.
pub uninterp spec fn utf8_lossy(bytes: Seq<u8>) -> Seq<char>;

/// The text that stands for `bytes`: valid UTF-8 is decoded as it is,
/// anything else goes through the lossy conversion, which replaces what is
/// malformed.
pub open spec fn lossy_text(bytes: Seq<u8>) -> Seq<char> {
    if valid_utf8(bytes) {
        decode_utf8(bytes)
    } else {
        utf8_lossy(bytes)
    }
}

/// Whether every byte of `bytes` is a 7-bit ASCII code.
pub open spec fn is_ascii_bytes(bytes: Seq<u8>) -> bool {
    forall|i: int| 0 <= i < bytes.len() ==> bytes[i] < 0x80
}

/// One character for each byte, with the byte's value as its code.
pub open spec fn ascii_text(bytes: Seq<u8>) -> Seq<char> {
    Seq::new(bytes.len(), |i: int| bytes[i] as char)
}

/// ASCII bytes stand for themselves: their text has one character for each
/// byte, with the byte's value as its code.
pub proof fn lemma_ascii_text(bytes: Seq<u8>)
    requires
        is_ascii_bytes(bytes),
    ensures
        valid_utf8(bytes),
        lossy_text(bytes) == ascii_text(bytes),
    decreases bytes.len(),
{
    if bytes.len() > 0 {
        let first = bytes[0];
        let rest = pop_first_scalar(bytes);
        assert(first & 0x7F == first) by (bit_vector)
            requires
                first < 0x80,
        ;
        assert(rest == bytes.subrange(1, bytes.len() as int));
        lemma_ascii_text(rest);
    }
}

/// Calls `String::from_utf8_lossy` and takes ownership of its result.
///
/// Trusted: the result is a function of the bytes alone, and bytes that are
/// valid UTF-8 come back as the characters that they encode.
#[verifier::external_body]
fn string_from_utf8_lossy(bytes: &[u8]) -> (text: String)
    ensures
        text@ == (if valid_utf8(bytes@) {
            decode_utf8(bytes@)
        } else {
            utf8_lossy(bytes@)
        }),
{
    String::from_utf8_lossy(bytes).into_owned()
}

/// Turns bytes into text, replacing whatever is not valid UTF-8.
pub fn text_from_bytes(bytes: &[u8]) -> (text: String)
    ensures
        text@ == lossy_text(bytes@),
{
    string_from_utf8_lossy(bytes)
}

} // verus!
