//! The stored form of an update record, as a model.
//!
//! Nothing here runs. The functions say which bytes store a record of the
//! second update layout, so that it can be stated, and proved, that decoding
//! gives back every field of what was stored.

use vstd::prelude::*;
use crate::bundle::{Magic, UpdateBundle, UpdateBundleView};
use crate::error::DecodeError;
use crate::ota::{MetaString, OtaV2, OtaV2View};
use crate::reader::{fits, text_at, u16_le_at, u16_le_run, u32_le_at, u64_le_at};
use crate::text::lossy_text;
use crate::transform::{lemma_scramble_seq_inverse, scramble_seq};

verus! {

/// The two bytes that store `v`, least significant first.
pub open spec fn u16_le_bytes(v: u16) -> Seq<u8> {
    seq![(v % 0x100) as u8, (v / 0x100) as u8]
}

/// The four bytes that store `v`, least significant first.
pub open spec fn u32_le_bytes(v: u32) -> Seq<u8> {
    seq![
        (v % 0x100) as u8,
        (v / 0x100 % 0x100) as u8,
        (v / 0x1_0000 % 0x100) as u8,
        (v / 0x100_0000) as u8,
    ]
}

/// The eight bytes that store `v`, least significant first.
pub open spec fn u64_le_bytes(v: u64) -> Seq<u8> {
    u32_le_bytes((v % 0x1_0000_0000) as u32) + u32_le_bytes((v / 0x1_0000_0000) as u32)
}

/// The bytes that store the numbers `values` back to back, each least
/// significant byte first.
pub open spec fn u16_le_run_bytes(values: Seq<u16>) -> Seq<u8>
    decreases values.len(),
{
    if values.len() == 0 {
        Seq::empty()
    } else {
        u16_le_run_bytes(values.drop_last()) + u16_le_bytes(values.last())
    }
}

/// The bytes that store one metadata string with the plain content `plain`:
/// its length, least significant byte first, then the content scrambled.
pub open spec fn meta_string_bytes(plain: Seq<u8>) -> Seq<u8> {
    u16_le_bytes(plain.len() as u16) + scramble_seq(plain)
}

/// The bytes that store the metadata strings `plains` back to back.
pub open spec fn meta_run_bytes(plains: Seq<Seq<u8>>) -> Seq<u8>
    decreases plains.len(),
{
    if plains.len() == 0 {
        Seq::empty()
    } else {
        meta_run_bytes(plains.drop_last()) + meta_string_bytes(plains.last())
    }
}

/// The texts that decoding makes of the plain contents `plains`.
pub open spec fn texts_of(plains: Seq<Seq<u8>>) -> Seq<Seq<char>> {
    Seq::new(plains.len(), |i: int| lossy_text(plains[i]))
}

/// A record of the second update layout before it is stored: the values of
/// its fields, with the hash and the metadata strings as plain bytes.
pub struct OtaV2Plain {
    pub source_rev: u64,
    pub target_rev: u64,
    pub device_codes: Seq<u16>,
    pub critical: u8,
    pub padding: u8,
    pub md5_hash: Seq<u8>,
    pub metadata: Seq<Seq<u8>>,
}

impl OtaV2Plain {
    /// Whether the record can be stored: the hash has its fixed width, and
    /// every count and length fits the 16 bits that store it.
    pub open spec fn storable(self) -> bool {
        &&& self.md5_hash.len() == 32
        &&& self.device_codes.len() <= 0xFFFF
        &&& self.metadata.len() <= 0xFFFF
        &&& forall|i: int| 0 <= i < self.metadata.len() ==> (#[trigger] self.metadata[i]).len()
            <= 0xFFFF
    }

    /// The bytes that store the record.
    pub open spec fn stored(self) -> Seq<u8> {
        u64_le_bytes(self.source_rev) + u64_le_bytes(self.target_rev) + u16_le_bytes(
            self.device_codes.len() as u16,
        ) + u16_le_run_bytes(self.device_codes) + seq![self.critical, self.padding] + scramble_seq(
            self.md5_hash,
        ) + u16_le_bytes(self.metadata.len() as u16) + meta_run_bytes(self.metadata)
    }

    /// What decoding is to make of the stored record.
    pub open spec fn decoded(self) -> OtaV2View {
        OtaV2View {
            source_rev: self.source_rev,
            target_rev: self.target_rev,
            num_devices: self.device_codes.len() as u16,
            device_codes: self.device_codes,
            critical: self.critical,
            padding: self.padding,
            md5_hash: lossy_text(self.md5_hash),
            num_metadata: self.metadata.len() as u16,
            metadata: texts_of(self.metadata),
        }
    }
}

/// A little-endian 16-bit number is read back from where it is stored.
pub proof fn lemma_read_back_u16_le(data: Seq<u8>, at: int, v: u16)
    requires
        fits(data, at, 2),
        data.subrange(at, at + 2) == u16_le_bytes(v),
    ensures
        u16_le_at(data, at) == v,
{
    let piece = data.subrange(at, at + 2);
    assert(piece[0] == data[at] && piece[1] == data[at + 1]);
}

/// A little-endian 32-bit number is read back from where it is stored.
pub proof fn lemma_read_back_u32_le(data: Seq<u8>, at: int, v: u32)
    requires
        fits(data, at, 4),
        data.subrange(at, at + 4) == u32_le_bytes(v),
    ensures
        u32_le_at(data, at) == v,
{
    let piece = data.subrange(at, at + 4);
    assert(piece[0] == data[at] && piece[1] == data[at + 1] && piece[2] == data[at + 2]
        && piece[3] == data[at + 3]);
}

/// A little-endian 64-bit number is read back from where it is stored.
pub proof fn lemma_read_back_u64_le(data: Seq<u8>, at: int, v: u64)
    requires
        fits(data, at, 8),
        data.subrange(at, at + 8) == u64_le_bytes(v),
    ensures
        u64_le_at(data, at) == v,
{
    let piece = data.subrange(at, at + 8);
    let low = (v % 0x1_0000_0000) as u32;
    let high = (v / 0x1_0000_0000) as u32;
    assert(data.subrange(at, at + 4) =~= piece.subrange(0, 4));
    assert(data.subrange(at + 4, at + 8) =~= piece.subrange(4, 8));
    assert(piece.subrange(0, 4) =~= u32_le_bytes(low));
    assert(piece.subrange(4, 8) =~= u32_le_bytes(high));
    lemma_read_back_u32_le(data, at, low);
    lemma_read_back_u32_le(data, at + 4, high);
}

/// Scrambled text is read back as the text of its plain bytes.
pub proof fn lemma_read_back_text(data: Seq<u8>, at: int, plain: Seq<u8>)
    requires
        fits(data, at, plain.len() as int),
        data.subrange(at, at + plain.len()) == scramble_seq(plain),
    ensures
        text_at(data, at, plain.len() as int) == lossy_text(plain),
{
    lemma_scramble_seq_inverse(plain);
}

/// A run of 16-bit numbers takes two bytes for each number.
pub proof fn lemma_u16_le_run_len(values: Seq<u16>)
    ensures
        u16_le_run_bytes(values).len() == 2 * values.len(),
    decreases values.len(),
{
    if values.len() > 0 {
        lemma_u16_le_run_len(values.drop_last());
    }
}

/// A run of 16-bit numbers is read back from where it is stored.
pub proof fn lemma_read_back_u16_le_run(data: Seq<u8>, at: int, values: Seq<u16>)
    requires
        fits(data, at, 2 * values.len() as int),
        data.subrange(at, at + 2 * values.len()) == u16_le_run_bytes(values),
    ensures
        u16_le_run(data, at, values.len() as int) == values,
    decreases values.len(),
{
    let n = values.len() as int;
    if n > 0 {
        let front = values.drop_last();
        let piece = data.subrange(at, at + 2 * n);
        lemma_u16_le_run_len(front);
        assert(data.subrange(at, at + 2 * (n - 1)) =~= piece.subrange(0, 2 * (n - 1)));
        assert(piece.subrange(0, 2 * (n - 1)) =~= u16_le_run_bytes(front));
        lemma_read_back_u16_le_run(data, at, front);
        assert(data.subrange(at + 2 * (n - 1), at + 2 * n) =~= piece.subrange(2 * (n - 1), 2 * n));
        assert(piece.subrange(2 * (n - 1), 2 * n) =~= u16_le_bytes(values.last()));
        lemma_read_back_u16_le(data, at + 2 * (n - 1), values.last());
        assert forall|k: int| 0 <= k < n implies u16_le_run(data, at, n)[k] == values[k] by {
            if k < n - 1 {
                assert(u16_le_run(data, at, n - 1)[k] == front[k]);
            }
        }
    }
}

/// One metadata string is read back from where it is stored, and the
/// position moves past it.
pub proof fn lemma_read_back_meta_string(data: Seq<u8>, at: int, plain: Seq<u8>)
    requires
        plain.len() <= 0xFFFF,
        fits(data, at, 2 + plain.len() as int),
        data.subrange(at, at + 2 + plain.len()) == meta_string_bytes(plain),
    ensures
        MetaString::spec_parse(data, at) == Ok::<(Seq<char>, int), DecodeError>(
            (lossy_text(plain), at + 2 + plain.len()),
        ),
{
    let n = plain.len() as int;
    let piece = data.subrange(at, at + 2 + n);
    assert(data.subrange(at, at + 2) =~= piece.subrange(0, 2));
    assert(piece.subrange(0, 2) =~= u16_le_bytes(n as u16));
    lemma_read_back_u16_le(data, at, n as u16);
    assert(data.subrange(at + 2, at + 2 + n) =~= piece.subrange(2, 2 + n));
    assert(piece.subrange(2, 2 + n) =~= scramble_seq(plain));
    lemma_read_back_text(data, at + 2, plain);
}

/// A run of metadata strings is read back from where it is stored, and the
/// position moves past it.
pub proof fn lemma_read_back_meta_run(data: Seq<u8>, at: int, plains: Seq<Seq<u8>>)
    requires
        forall|i: int| 0 <= i < plains.len() ==> (#[trigger] plains[i]).len() <= 0xFFFF,
        fits(data, at, meta_run_bytes(plains).len() as int),
        data.subrange(at, at + meta_run_bytes(plains).len()) == meta_run_bytes(plains),
    ensures
        MetaString::spec_parse_run(data, at, plains.len()) == Ok::<
            (Seq<Seq<char>>, int),
            DecodeError,
        >((texts_of(plains), at + meta_run_bytes(plains).len())),
    decreases plains.len(),
{
    if plains.len() == 0 {
        assert(texts_of(plains) =~= Seq::<Seq<char>>::empty());
    } else {
        let front = plains.drop_last();
        let last = plains.last();
        let total = meta_run_bytes(plains).len() as int;
        let mid = meta_run_bytes(front).len() as int;
        let piece = data.subrange(at, at + total);
        assert(data.subrange(at, at + mid) =~= piece.subrange(0, mid));
        assert(piece.subrange(0, mid) =~= meta_run_bytes(front));
        lemma_read_back_meta_run(data, at, front);
        assert(data.subrange(at + mid, at + total) =~= piece.subrange(mid, total));
        assert(piece.subrange(mid, total) =~= meta_string_bytes(last));
        lemma_read_back_meta_string(data, at + mid, last);
        assert(texts_of(plains) =~= texts_of(front).push(lossy_text(last)));
    }
}

/// Where a stream continues with `piece` and then `rest`, the piece lies
/// at that place and the rest right after it.
proof fn lemma_peel(data: Seq<u8>, at: int, piece: Seq<u8>, rest: Seq<u8>)
    requires
        0 <= at <= data.len(),
        data.subrange(at, data.len() as int) == piece + rest,
    ensures
        fits(data, at, piece.len() as int),
        data.subrange(at, at + piece.len()) == piece,
        data.subrange(at + piece.len(), data.len() as int) == rest,
{
    let tail = data.subrange(at, data.len() as int);
    assert(tail.len() == piece.len() + rest.len());
    assert(tail.subrange(0, piece.len() as int) =~= piece);
    assert(tail.subrange(piece.len() as int, tail.len() as int) =~= rest);
}

/// A stored record followed by `after`, as its parts in order.
proof fn lemma_stored_parts(record: OtaV2Plain, after: Seq<u8>)
    ensures
        record.stored() + after == u64_le_bytes(record.source_rev) + (u64_le_bytes(
            record.target_rev,
        ) + (u16_le_bytes(record.device_codes.len() as u16) + (u16_le_run_bytes(
            record.device_codes,
        ) + (seq![record.critical, record.padding] + (scramble_seq(record.md5_hash) + (u16_le_bytes(
            record.metadata.len() as u16,
        ) + (meta_run_bytes(record.metadata) + after))))))),
        record.stored().len() == 22 + u16_le_run_bytes(record.device_codes).len()
            + record.md5_hash.len() + meta_run_bytes(record.metadata).len(),
{
    let source = u64_le_bytes(record.source_rev);
    let target = u64_le_bytes(record.target_rev);
    let count = u16_le_bytes(record.device_codes.len() as u16);
    let devices = u16_le_run_bytes(record.device_codes);
    let flags = seq![record.critical, record.padding];
    let hash = scramble_seq(record.md5_hash);
    let meta_count = u16_le_bytes(record.metadata.len() as u16);
    let meta = meta_run_bytes(record.metadata);
    assert(record.stored() + after =~= source + (target + (count + (devices + (flags + (hash + (
        meta_count + (meta + after))))))));
}

/// The fields of a stored record, read back one by one from a stream that
/// holds the record at `before.len()`.
#[verifier::rlimit(40)]
proof fn lemma_stored_fields(before: Seq<u8>, record: OtaV2Plain, after: Seq<u8>)
    requires
        record.storable(),
    ensures
        ({
            let data = before + record.stored() + after;
            let at = before.len() as int;
            let n = record.device_codes.len() as int;
            let mid = at + 18 + 2 * n;
            &&& record.stored().len() == 54 + 2 * n + meta_run_bytes(record.metadata).len()
            &&& fits(data, at, record.stored().len() as int)
            &&& u64_le_at(data, at) == record.source_rev
            &&& u64_le_at(data, at + 8) == record.target_rev
            &&& u16_le_at(data, at + 16) == n
            &&& u16_le_run(data, at + 18, n) == record.device_codes
            &&& data[mid] == record.critical
            &&& data[mid + 1] == record.padding
            &&& text_at(data, mid + 2, 32) == lossy_text(record.md5_hash)
            &&& u16_le_at(data, mid + 34) == record.metadata.len()
            &&& MetaString::spec_parse_run(data, mid + 36, record.metadata.len()) == Ok::<
                (Seq<Seq<char>>, int),
                DecodeError,
            >((texts_of(record.metadata), at + record.stored().len()))
        }),
{
    let data = before + record.stored() + after;
    let at = before.len() as int;
    let n = record.device_codes.len() as int;
    let m = record.metadata.len() as int;
    let mid = at + 18 + 2 * n;
    let source = u64_le_bytes(record.source_rev);
    let target = u64_le_bytes(record.target_rev);
    let count = u16_le_bytes(n as u16);
    let devices = u16_le_run_bytes(record.device_codes);
    let flags = seq![record.critical, record.padding];
    let hash = scramble_seq(record.md5_hash);
    let meta_count = u16_le_bytes(m as u16);
    let meta = meta_run_bytes(record.metadata);
    let from_meta = meta + after;
    let from_meta_count = meta_count + from_meta;
    let from_hash = hash + from_meta_count;
    let from_flags = flags + from_hash;
    let from_devices = devices + from_flags;
    let from_count = count + from_devices;
    let from_target = target + from_count;
    lemma_u16_le_run_len(record.device_codes);
    lemma_stored_parts(record, after);
    assert(data.subrange(at, data.len() as int) =~= record.stored() + after);

    lemma_peel(data, at, source, from_target);
    lemma_read_back_u64_le(data, at, record.source_rev);
    lemma_peel(data, at + 8, target, from_count);
    lemma_read_back_u64_le(data, at + 8, record.target_rev);
    lemma_peel(data, at + 16, count, from_devices);
    lemma_read_back_u16_le(data, at + 16, n as u16);
    lemma_peel(data, at + 18, devices, from_flags);
    lemma_read_back_u16_le_run(data, at + 18, record.device_codes);
    lemma_peel(data, mid, flags, from_hash);
    lemma_peel(data, mid + 2, hash, from_meta_count);
    lemma_read_back_text(data, mid + 2, record.md5_hash);
    lemma_peel(data, mid + 34, meta_count, from_meta);
    lemma_read_back_u16_le(data, mid + 34, m as u16);
    lemma_peel(data, mid + 36, meta, after);
    lemma_read_back_meta_run(data, mid + 36, record.metadata);
}

/// Decoding gives back every field of a stored record of the second update
/// layout, wherever in a stream the record stands and whatever follows it,
/// and stops right after the record.
pub proof fn lemma_ota_v2_round_trip(before: Seq<u8>, record: OtaV2Plain, after: Seq<u8>)
    requires
        record.storable(),
    ensures
        OtaV2::spec_parse(before + record.stored() + after, before.len() as int) == Ok::<
            (OtaV2View, int),
            DecodeError,
        >((record.decoded(), before.len() as int + record.stored().len())),
{
    lemma_stored_fields(before, record, after);
}

/// The container that decoding is to make of the record `record` stored
/// behind the tag `tag`.
pub open spec fn decoded_behind(tag: Magic, record: OtaV2Plain) -> UpdateBundleView {
    match tag {
        Magic::Fc04 => UpdateBundleView::OtaV2Fc04(record.decoded()),
        Magic::Fd04 => UpdateBundleView::OtaV2Fd04(record.decoded()),
        _ => UpdateBundleView::OtaV2Fl01(record.decoded()),
    }
}

/// Decoding gives back a stored record of the second update layout as the
/// container of its tag, wherever in a stream the tag stands, whatever follows
/// the record and whatever depth of envelopes is allowed, and stops right
/// after the record.
pub proof fn lemma_tagged_ota_v2_round_trip(
    before: Seq<u8>,
    tag: Magic,
    record: OtaV2Plain,
    after: Seq<u8>,
    depth: nat,
)
    requires
        tag == Magic::Fc04 || tag == Magic::Fd04 || tag == Magic::Fl01,
        record.storable(),
    ensures
        UpdateBundle::spec_parse(
            before + tag.bytes() + record.stored() + after,
            before.len() as int,
            depth,
        ) == Ok::<(UpdateBundleView, int), DecodeError>(
            (decoded_behind(tag, record), before.len() as int + 4 + record.stored().len()),
        ),
{
    let data = before + tag.bytes() + record.stored() + after;
    let at = before.len() as int;
    lemma_ota_v2_round_trip(before + tag.bytes(), record, after);
    tag.lemma_of_tag_bytes(data.subrange(at, at + 4));
    assert(data.subrange(at, at + 4) == tag.bytes());
}

} // verus!
