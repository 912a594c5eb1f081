//! The byte transform: an invertible, stateless scrambler that the container
//! format applies to its embedded strings and to the payload after the header.

use vstd::prelude::*;

verus! {

/// The byte with its high and low four-bit halves exchanged.
pub open spec fn rotate_nibbles(b: u8) -> u8 {
    ((b % 16) * 16 + b / 16) as u8
}

/// The stored (obfuscated) form of the plain byte `b`.
pub open spec fn scramble(b: u8) -> u8 {
    rotate_nibbles(b) ^ 0x7A
}

/// The plain form of the stored byte `b`.
pub open spec fn unscramble(b: u8) -> u8 {
    rotate_nibbles(b) ^ 0xA7
}

/// `unscramble` applied to every byte of `s`.
pub open spec fn unscramble_seq(s: Seq<u8>) -> Seq<u8> {
    Seq::new(s.len(), |i: int| unscramble(s[i]))
}

/// `scramble` applied to every byte of `s`.
pub open spec fn scramble_seq(s: Seq<u8>) -> Seq<u8> {
    Seq::new(s.len(), |i: int| scramble(s[i]))
}

/// Recovers one plain byte from its stored form.
pub fn deobfuscate_byte(byte: u8) -> (plain: u8)
    ensures
        plain == unscramble(byte),
{
    let plain: u8 = ((byte >> 4) | (byte << 4)) ^ 0xA7;
    assert(((byte >> 4u8) | (byte << 4u8)) == ((byte % 16) * 16 + byte / 16) as u8) by (bit_vector);
    plain
}

/// Turns one plain byte into its stored form.
pub fn obfuscate_byte(byte: u8) -> (stored: u8)
    ensures
        stored == scramble(byte),
{
    let stored: u8 = ((byte >> 4) | (byte << 4)) ^ 0x7A;
    assert(((byte >> 4u8) | (byte << 4u8)) == ((byte % 16) * 16 + byte / 16) as u8) by (bit_vector);
    stored
}

/// Replaces every byte of `data` by its plain form.
pub fn deobfuscate_in_place(data: &mut [u8])
    ensures
        final(data)@ == unscramble_seq(old(data)@),
{
    let n: usize = data.len();
    let mut i: usize = 0;
    while i < n
        invariant
            i <= n,
            data@.len() == n,
            data@.len() == old(data)@.len(),
            forall|j: int| 0 <= j < i ==> data@[j] == unscramble(old(data)@[j]),
            forall|j: int| i <= j < n ==> data@[j] == old(data)@[j],
        decreases n - i,
    {
        let b: u8 = data[i];
        data[i] = deobfuscate_byte(b);
        i += 1;
    }
}

/// Replaces every byte of `data` by its stored form.
pub fn obfuscate_in_place(data: &mut [u8])
    ensures
        final(data)@ == scramble_seq(old(data)@),
{
    let n: usize = data.len();
    let mut i: usize = 0;
    while i < n
        invariant
            i <= n,
            data@.len() == n,
            data@.len() == old(data)@.len(),
            forall|j: int| 0 <= j < i ==> data@[j] == scramble(old(data)@[j]),
            forall|j: int| i <= j < n ==> data@[j] == old(data)@[j],
        decreases n - i,
    {
        let b: u8 = data[i];
        data[i] = obfuscate_byte(b);
        i += 1;
    }
}

/// Exchanging the halves of a byte twice gives the byte back, commutes
/// with XOR, and carries the constant of one direction of the transform to
/// the constant of the other.
pub proof fn lemma_rotate_nibbles(a: u8, b: u8)
    ensures
        rotate_nibbles(rotate_nibbles(a)) == a,
        rotate_nibbles(a ^ b) == rotate_nibbles(a) ^ rotate_nibbles(b),
        rotate_nibbles(0x7A) == 0xA7,
{
    assert(rotate_nibbles(rotate_nibbles(a)) == a) by (bit_vector);
    assert(rotate_nibbles(a ^ b) == rotate_nibbles(a) ^ rotate_nibbles(b)) by (bit_vector);
    assert(rotate_nibbles(0x7A) == 0xA7) by (bit_vector);
}

/// Scrambling and unscrambling undo each other, in either order, on every
/// byte.
pub proof fn lemma_scramble_inverse(b: u8)
    ensures
        unscramble(scramble(b)) == b,
        scramble(unscramble(b)) == b,
{
    assert(unscramble(scramble(b)) == b) by (bit_vector);
    assert(scramble(unscramble(b)) == b) by (bit_vector);
}

/// Scrambling and unscrambling undo each other on whole sequences.
pub proof fn lemma_scramble_seq_inverse(s: Seq<u8>)
    ensures
        unscramble_seq(scramble_seq(s)) == s,
        scramble_seq(unscramble_seq(s)) == s,
{
    assert forall|i: int| 0 <= i < s.len() implies unscramble(scramble(s[i])) == s[i] && scramble(
        unscramble(s[i]),
    ) == s[i] by {
        lemma_scramble_inverse(s[i]);
    }
}

/// Transforming two adjoining pieces and joining the results gives what
/// transforming the joined pieces gives: a boundary between chunks has no
/// effect.
pub proof fn lemma_transform_split(a: Seq<u8>, b: Seq<u8>)
    ensures
        unscramble_seq(a + b) == unscramble_seq(a) + unscramble_seq(b),
        scramble_seq(a + b) == scramble_seq(a) + scramble_seq(b),
{
}

/// Transforming a buffer chunk by chunk, for any division into chunks of
/// any lengths, and joining the results gives what transforming the whole
/// buffer gives.
pub proof fn lemma_transform_chunked(chunks: Seq<Seq<u8>>)
    ensures
        unscramble_seq(chunks.flatten()) == chunks.map_values(
            |c: Seq<u8>| unscramble_seq(c),
        ).flatten(),
        scramble_seq(chunks.flatten()) == chunks.map_values(
            |c: Seq<u8>| scramble_seq(c),
        ).flatten(),
    decreases chunks.len(),
{
    let plain = chunks.map_values(|c: Seq<u8>| unscramble_seq(c));
    let stored = chunks.map_values(|c: Seq<u8>| scramble_seq(c));
    if chunks.len() > 0 {
        let tail = chunks.drop_first();
        lemma_transform_chunked(tail);
        lemma_transform_split(chunks.first(), tail.flatten());
        assert(plain.drop_first() =~= tail.map_values(|c: Seq<u8>| unscramble_seq(c)));
        assert(stored.drop_first() =~= tail.map_values(|c: Seq<u8>| scramble_seq(c)));
    }
}

} // verus!
