//! The two over-the-air update layouts.
//!
//! Both are read field after field from the position that follows the magic
//! tag. Every number is little-endian, the length in front of a metadata
//! string included.

use vstd::prelude::*;
use crate::error::{refines, DecodeError, ErrorKind};
use crate::reader::{
    fits, lemma_extension_run, lemma_extension_u16_run, parse_deobfuscated_md5, read_text,
    read_u16_le, read_u16_le_run, read_u32_le, read_u64_le, read_u8, text_at, u16_le_at,
    u16_le_run, u16_run_stop, u32_le_at, u64_le_at,
};

verus! {

/// An update record of the first layout: 44 bytes of fixed shape.
#[derive(Debug)]
pub struct OtaV1 {
    /// The hash of the payload, as text.
    pub md5_hash: String,
    /// The lowest revision that the update applies to.
    pub source_rev: u32,
    /// The revision that the update leads to.
    pub target_rev: u32,
    /// The code of the device that the update is for.
    pub device_code: u16,
    /// The flag that marks the update as optional.
    pub optional: u8,
    /// One byte of padding.
    pub padding: u8,
}

/// The mathematical content of an `OtaV1`.
pub struct OtaV1View {
    pub md5_hash: Seq<char>,
    pub source_rev: u32,
    pub target_rev: u32,
    pub device_code: u16,
    pub optional: u8,
    pub padding: u8,
}

impl View for OtaV1 {
    type V = OtaV1View;

    open spec fn view(&self) -> OtaV1View {
        OtaV1View {
            md5_hash: self.md5_hash@,
            source_rev: self.source_rev,
            target_rev: self.target_rev,
            device_code: self.device_code,
            optional: self.optional,
            padding: self.padding,
        }
    }
}

impl OtaV1 {
    /// The record stored in the 44 bytes at `at`.
    pub open spec fn layout(data: Seq<u8>, at: int) -> OtaV1View {
        OtaV1View {
            md5_hash: text_at(data, at, 32),
            source_rev: u32_le_at(data, at + 32),
            target_rev: u32_le_at(data, at + 36),
            device_code: u16_le_at(data, at + 40),
            optional: data[at + 42],
            padding: data[at + 43],
        }
    }

    /// Where a record that starts at `at` breaks off when `data` is too short
    /// for it: the start of the first field that is not complete.
    pub open spec fn stop(data: Seq<u8>, at: int) -> int {
        if !fits(data, at, 32) {
            at
        } else if !fits(data, at, 36) {
            at + 32
        } else if !fits(data, at, 40) {
            at + 36
        } else if !fits(data, at, 42) {
            at + 40
        } else if !fits(data, at, 43) {
            at + 42
        } else {
            at + 43
        }
    }

    /// The outcome of decoding a record of this layout at `at`.
    pub open spec fn spec_parse(data: Seq<u8>, at: int) -> Result<(OtaV1View, int), DecodeError> {
        if fits(data, at, 44) {
            Ok((Self::layout(data, at), at + 44))
        } else {
            Err(DecodeError::unexpected_end(Self::stop(data, at)))
        }
    }

    /// A record that decodes is the same record whatever follows the stream.
    pub proof fn lemma_extension(data: Seq<u8>, more: Seq<u8>, at: int)
        requires
            Self::spec_parse(data, at) is Ok,
        ensures
            Self::spec_parse(data + more, at) == Self::spec_parse(data, at),
    {
        lemma_extension_run(data, more, at, 32);
    }

    /// Decodes a record of this layout at `pos`.
    pub fn parse(data: &[u8], pos: usize) -> (r: Result<(OtaV1, usize), DecodeError>)
        ensures
            refines(r, Self::spec_parse(data@, pos as int)),
            r matches Ok((_, next)) ==> pos < next <= data@.len(),
    {
        let (md5_hash, at) = parse_deobfuscated_md5(data, pos)?;
        let (source_rev, at) = read_u32_le(data, at)?;
        let (target_rev, at) = read_u32_le(data, at)?;
        let (device_code, at) = read_u16_le(data, at)?;
        let (optional, at) = read_u8(data, at)?;
        let (padding, at) = read_u8(data, at)?;
        Ok((OtaV1 { md5_hash, source_rev, target_rev, device_code, optional, padding }, at))
    }
}

/// One metadata string of an update record of the second layout.
#[derive(Debug)]
pub struct MetaString(pub String);

impl View for MetaString {
    type V = Seq<char>;

    open spec fn view(&self) -> Seq<char> {
        self.0@
    }
}

impl MetaString {
    /// The outcome of decoding a metadata string at `at`: a little-endian
    /// 16-bit length, then that many scrambled bytes.
    pub open spec fn spec_parse(data: Seq<u8>, at: int) -> Result<(Seq<char>, int), DecodeError> {
        if !fits(data, at, 2) {
            Err(DecodeError::unexpected_end(at))
        } else {
            let n = u16_le_at(data, at) as int;
            if !fits(data, at + 2, n) {
                Err(DecodeError::unexpected_end(at + 2))
            } else {
                Ok((text_at(data, at + 2, n), at + 2 + n))
            }
        }
    }

    /// The outcome of decoding `count` metadata strings stored back to back
    /// from `at` on: the first failure, or all the strings in order with the
    /// position after the last. Like every read, a run of no strings fails
    /// when it is to start beyond the end of the stream.
    pub open spec fn spec_parse_run(data: Seq<u8>, at: int, count: nat) -> Result<
        (Seq<Seq<char>>, int),
        DecodeError,
    >
        decreases count,
    {
        if count == 0 {
            if fits(data, at, 0) {
                Ok((Seq::empty(), at))
            } else {
                Err(DecodeError::unexpected_end(at))
            }
        } else {
            match Self::spec_parse_run(data, at, (count - 1) as nat) {
                Err(e) => Err(e),
                Ok((texts, mid)) => match Self::spec_parse(data, mid) {
                    Err(e) => Err(e),
                    Ok((text, end)) => Ok((texts.push(text), end)),
                },
            }
        }
    }

    /// The views of a sequence of metadata strings.
    pub open spec fn views(strings: Seq<MetaString>) -> Seq<Seq<char>> {
        Seq::new(strings.len(), |i: int| strings[i]@)
    }

    /// A run that fails after `short` strings fails in the same way however
    /// many more are asked for.
    pub proof fn lemma_run_failure_persists(data: Seq<u8>, at: int, short: nat, count: nat)
        requires
            short <= count,
            Self::spec_parse_run(data, at, short) is Err,
        ensures
            Self::spec_parse_run(data, at, count) == Self::spec_parse_run(data, at, short),
        decreases count,
    {
        if short < count {
            Self::lemma_run_failure_persists(data, at, short, (count - 1) as nat);
        }
    }

    /// A run of metadata strings that decodes starts and ends inside the
    /// stream, and holds as many strings as were asked for.
    pub proof fn lemma_run_in_bounds(data: Seq<u8>, at: int, count: nat)
        requires
            Self::spec_parse_run(data, at, count) is Ok,
        ensures
            0 <= at <= Self::spec_parse_run(data, at, count).unwrap().1 <= data.len(),
            Self::spec_parse_run(data, at, count).unwrap().0.len() == count,
        decreases count,
    {
        if count > 0 {
            Self::lemma_run_in_bounds(data, at, (count - 1) as nat);
        }
    }

    /// A run of metadata strings fails only because the stream ends too
    /// early.
    pub proof fn lemma_run_fails_by_truncation(data: Seq<u8>, at: int, count: nat)
        ensures
            Self::spec_parse_run(data, at, count) matches Err(e) ==> e.kind is UnexpectedEnd,
        decreases count,
    {
        if count > 0 {
            Self::lemma_run_fails_by_truncation(data, at, (count - 1) as nat);
        }
    }

    /// A metadata string that decodes is the same string whatever follows
    /// the stream.
    pub proof fn lemma_extension(data: Seq<u8>, more: Seq<u8>, at: int)
        requires
            Self::spec_parse(data, at) is Ok,
        ensures
            Self::spec_parse(data + more, at) == Self::spec_parse(data, at),
    {
        lemma_extension_run(data, more, at + 2, u16_le_at(data, at) as int);
    }

    /// A run of metadata strings that decodes is the same run whatever
    /// follows the stream.
    pub proof fn lemma_run_extension(data: Seq<u8>, more: Seq<u8>, at: int, count: nat)
        requires
            Self::spec_parse_run(data, at, count) is Ok,
        ensures
            Self::spec_parse_run(data + more, at, count) == Self::spec_parse_run(data, at, count),
        decreases count,
    {
        if count > 0 {
            Self::lemma_run_extension(data, more, at, (count - 1) as nat);
            let mid = Self::spec_parse_run(data, at, (count - 1) as nat).unwrap().1;
            Self::lemma_extension(data, more, mid);
        }
    }

    /// Decodes the metadata string at `pos`.
    pub fn parse(data: &[u8], pos: usize) -> (r: Result<(MetaString, usize), DecodeError>)
        ensures
            refines(r, Self::spec_parse(data@, pos as int)),
            r matches Ok((_, next)) ==> pos < next <= data@.len(),
    {
        let (len, at) = read_u16_le(data, pos)?;
        let (text, next) = read_text(data, at, len as usize)?;
        Ok((MetaString(text), next))
    }

    /// Decodes `count` metadata strings stored back to back from `pos` on.
    pub fn parse_run(data: &[u8], pos: usize, count: usize) -> (r: Result<
        (Vec<MetaString>, usize),
        DecodeError,
    >)
        ensures
            match r {
                Ok((strings, next)) => Self::spec_parse_run(data@, pos as int, count as nat) == Ok::<
                    (Seq<Seq<char>>, int),
                    DecodeError,
                >((Self::views(strings@), next as int)),
                Err(e) => Self::spec_parse_run(data@, pos as int, count as nat) == Err::<
                    (Seq<Seq<char>>, int),
                    DecodeError,
                >(e),
            },
            r matches Ok((strings, next)) ==> strings@.len() == count && pos <= next
                <= data@.len(),
    {
        if pos > data.len() {
            proof {
                Self::lemma_run_failure_persists(data@, pos as int, 0, count as nat);
            }
            return Err(DecodeError { kind: ErrorKind::UnexpectedEnd, offset: pos });
        }
        let mut strings: Vec<MetaString> = Vec::new();
        let mut at: usize = pos;
        let mut i: usize = 0;
        assert(Self::views(strings@) =~= Seq::<Seq<char>>::empty());
        while i < count
            invariant
                i <= count,
                strings@.len() == i,
                pos <= at <= data@.len(),
                Self::spec_parse_run(data@, pos as int, i as nat) == Ok::<
                    (Seq<Seq<char>>, int),
                    DecodeError,
                >((Self::views(strings@), at as int)),
            decreases count - i,
        {
            match Self::parse(data, at) {
                Ok((string, next)) => {
                    proof {
                        assert(Self::views(strings@.push(string)) =~= Self::views(strings@).push(
                            string@,
                        ));
                    }
                    strings.push(string);
                    at = next;
                    i += 1;
                },
                Err(e) => {
                    proof {
                        Self::lemma_run_failure_persists(
                            data@,
                            pos as int,
                            (i + 1) as nat,
                            count as nat,
                        );
                    }
                    return Err(e);
                },
            }
        }
        Ok((strings, at))
    }
}

/// An update record of the second layout: two counted lists around a fixed
/// middle part.
#[derive(Debug)]
pub struct OtaV2 {
    /// The lowest revision that the update applies to.
    pub source_rev: u64,
    /// The revision that the update leads to.
    pub target_rev: u64,
    /// The stored count of device codes.
    pub num_devices: u16,
    /// The codes of the devices that the update is for, in stored order.
    pub device_codes: Vec<u16>,
    /// The flag that marks the update as critical.
    pub critical: u8,
    /// One byte of padding.
    pub padding: u8,
    /// The hash of the payload, as text.
    pub md5_hash: String,
    /// The stored count of metadata strings.
    pub num_metadata: u16,
    /// The metadata strings, in stored order.
    pub metadata: Vec<MetaString>,
}

/// The mathematical content of an `OtaV2`.
pub struct OtaV2View {
    pub source_rev: u64,
    pub target_rev: u64,
    pub num_devices: u16,
    pub device_codes: Seq<u16>,
    pub critical: u8,
    pub padding: u8,
    pub md5_hash: Seq<char>,
    pub num_metadata: u16,
    pub metadata: Seq<Seq<char>>,
}

impl View for OtaV2 {
    type V = OtaV2View;

    open spec fn view(&self) -> OtaV2View {
        OtaV2View {
            source_rev: self.source_rev,
            target_rev: self.target_rev,
            num_devices: self.num_devices,
            device_codes: self.device_codes@,
            critical: self.critical,
            padding: self.padding,
            md5_hash: self.md5_hash@,
            num_metadata: self.num_metadata,
            metadata: MetaString::views(self.metadata@),
        }
    }
}

impl OtaV2 {
    /// The position after the device codes of a record that starts at `at`,
    /// where its fixed middle part begins.
    pub open spec fn middle(data: Seq<u8>, at: int) -> int {
        at + 18 + 2 * u16_le_at(data, at + 16)
    }

    /// The outcome of decoding a record of this layout at `at`.
    ///
    /// Two 64-bit counters and the device count come first, then the device
    /// codes. The middle part holds the criticality flag, a padding byte, the
    /// hash and the metadata count. The metadata strings close the record.
    /// A record that is cut short fails at the start of the first field that
    /// is not complete.
    pub open spec fn spec_parse(data: Seq<u8>, at: int) -> Result<(OtaV2View, int), DecodeError> {
        let mid = Self::middle(data, at);
        if !fits(data, at, 8) {
            Err(DecodeError::unexpected_end(at))
        } else if !fits(data, at, 16) {
            Err(DecodeError::unexpected_end(at + 8))
        } else if !fits(data, at, 18) {
            Err(DecodeError::unexpected_end(at + 16))
        } else if !fits(data, at, mid - at) {
            Err(DecodeError::unexpected_end(u16_run_stop(data, at + 18)))
        } else if !fits(data, mid, 1) {
            Err(DecodeError::unexpected_end(mid))
        } else if !fits(data, mid, 2) {
            Err(DecodeError::unexpected_end(mid + 1))
        } else if !fits(data, mid, 34) {
            Err(DecodeError::unexpected_end(mid + 2))
        } else if !fits(data, mid, 36) {
            Err(DecodeError::unexpected_end(mid + 34))
        } else {
            let num_devices = u16_le_at(data, at + 16);
            let num_metadata = u16_le_at(data, mid + 34);
            match MetaString::spec_parse_run(data, mid + 36, num_metadata as nat) {
                Err(e) => Err(e),
                Ok((metadata, end)) => Ok(
                    (
                        OtaV2View {
                            source_rev: u64_le_at(data, at),
                            target_rev: u64_le_at(data, at + 8),
                            num_devices,
                            device_codes: u16_le_run(data, at + 18, num_devices as int),
                            critical: data[mid],
                            padding: data[mid + 1],
                            md5_hash: text_at(data, mid + 2, 32),
                            num_metadata,
                            metadata,
                        },
                        end,
                    ),
                ),
            }
        }
    }

    /// A record that decodes ends inside the stream, after its start, and
    /// holds as many device codes and metadata strings as its counts say.
    pub proof fn lemma_parse_in_bounds(data: Seq<u8>, at: int)
        requires
            Self::spec_parse(data, at) is Ok,
        ensures
            at < Self::spec_parse(data, at).unwrap().1 <= data.len(),
            Self::spec_parse(data, at).unwrap().0.device_codes.len() == Self::spec_parse(
                data,
                at,
            ).unwrap().0.num_devices,
            Self::spec_parse(data, at).unwrap().0.metadata.len() == Self::spec_parse(
                data,
                at,
            ).unwrap().0.num_metadata,
    {
        let mid = Self::middle(data, at);
        MetaString::lemma_run_in_bounds(data, mid + 36, u16_le_at(data, mid + 34) as nat);
    }

    /// A record fails to decode only because the stream ends too early.
    pub proof fn lemma_fails_by_truncation(data: Seq<u8>, at: int)
        ensures
            Self::spec_parse(data, at) matches Err(e) ==> e.kind is UnexpectedEnd,
    {
        let mid = Self::middle(data, at);
        MetaString::lemma_run_fails_by_truncation(
            data,
            mid + 36,
            u16_le_at(data, mid + 34) as nat,
        );
    }

    /// A record that decodes is the same record whatever follows the stream.
    pub proof fn lemma_extension(data: Seq<u8>, more: Seq<u8>, at: int)
        requires
            Self::spec_parse(data, at) is Ok,
        ensures
            Self::spec_parse(data + more, at) == Self::spec_parse(data, at),
    {
        let mid = Self::middle(data, at);
        let num_devices = u16_le_at(data, at + 16);
        let num_metadata = u16_le_at(data, mid + 34);
        lemma_extension_u16_run(data, more, at + 18, num_devices as int);
        lemma_extension_run(data, more, mid + 2, 32);
        MetaString::lemma_run_extension(data, more, mid + 36, num_metadata as nat);
    }

    /// Decodes a record of this layout at `pos`.
    pub fn parse(data: &[u8], pos: usize) -> (r: Result<(OtaV2, usize), DecodeError>)
        ensures
            refines(r, Self::spec_parse(data@, pos as int)),
            r matches Ok((_, next)) ==> pos < next <= data@.len(),
    {
        let (source_rev, at) = read_u64_le(data, pos)?;
        let (target_rev, at) = read_u64_le(data, at)?;
        let (num_devices, at) = read_u16_le(data, at)?;
        let (device_codes, at) = read_u16_le_run(data, at, num_devices as usize)?;
        let (critical, at) = read_u8(data, at)?;
        let (padding, at) = read_u8(data, at)?;
        let (md5_hash, at) = parse_deobfuscated_md5(data, at)?;
        let (num_metadata, at) = read_u16_le(data, at)?;
        let (metadata, at) = MetaString::parse_run(data, at, num_metadata as usize)?;
        Ok(
            (
                OtaV2 {
                    source_rev,
                    target_rev,
                    num_devices,
                    device_codes,
                    critical,
                    padding,
                    md5_hash,
                    num_metadata,
                    metadata,
                },
                at,
            ),
        )
    }
}

} // verus!
