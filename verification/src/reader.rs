//! The primitive field reader: positioned reads of integers, byte runs and
//! scrambled text from a byte stream held in memory.
//!
//! A stream is a byte slice together with a position. Every read takes both
//! and, on success, hands back the value with the position that follows it.
//! A read that would run past the end fails with `UnexpectedEnd` at the
//! position where it began, and consumes nothing. So does every read, even of
//! nothing, that is to begin beyond the end.

use vstd::prelude::*;
use vstd::slice::{slice_subrange, slice_to_vec};
use binrw::BinReaderExt;
use std::io::Cursor;
use crate::error::{DecodeError, ErrorKind};
use crate::text::{lossy_text, text_from_bytes};
use crate::transform::{deobfuscate_in_place, unscramble_seq};

verus! {

/// The error type of the binrw crate, carried from its readers to the place
/// where it is mapped to a `DecodeError`.
#[verifier::external_type_specification]
#[verifier::external_body]
pub struct ExBinrwError(binrw::Error);

/// Whether `n` bytes starting at `at` lie inside `data`.
pub open spec fn fits(data: Seq<u8>, at: int, n: int) -> bool {
    0 <= at && 0 <= n && at + n <= data.len()
}

/// The 16-bit number stored at `at`, least significant byte first.
pub open spec fn u16_le_at(data: Seq<u8>, at: int) -> u16 {
    (data[at] as int + 0x100 * data[at + 1] as int) as u16
}

/// The 32-bit number stored at `at`, least significant byte first.
pub open spec fn u32_le_at(data: Seq<u8>, at: int) -> u32 {
    (data[at] as int + 0x100 * data[at + 1] as int + 0x1_0000 * data[at + 2] as int + 0x100_0000
        * data[at + 3] as int) as u32
}

/// The 64-bit number stored at `at`, least significant byte first.
pub open spec fn u64_le_at(data: Seq<u8>, at: int) -> u64 {
    (u32_le_at(data, at) as int + 0x1_0000_0000 * u32_le_at(data, at + 4) as int) as u64
}

/// The `count` 16-bit numbers stored back to back from `at` on, each least
/// significant byte first.
pub open spec fn u16_le_run(data: Seq<u8>, at: int, count: int) -> Seq<u16> {
    Seq::new(count as nat, |k: int| u16_le_at(data, at + 2 * k))
}

/// Where a run of 16-bit numbers that starts at `at` breaks off when `data`
/// is too short for it: the start of the first number that is not complete.
pub open spec fn u16_run_stop(data: Seq<u8>, at: int) -> int {
    if at > data.len() {
        at
    } else {
        at + 2 * ((data.len() - at) / 2)
    }
}

/// The text stored in scrambled form in the `n` bytes at `at`.
pub open spec fn text_at(data: Seq<u8>, at: int, n: int) -> Seq<char> {
    lossy_text(unscramble_seq(data.subrange(at, at + n)))
}

/// Bytes that follow the end of a stream change nothing that lies before it:
/// a run that fits stays the same run, and so does the text stored in it.
pub proof fn lemma_extension_run(data: Seq<u8>, more: Seq<u8>, at: int, n: int)
    requires
        fits(data, at, n),
    ensures
        fits(data + more, at, n),
        (data + more).subrange(at, at + n) == data.subrange(at, at + n),
        text_at(data + more, at, n) == text_at(data, at, n),
{
}

/// Bytes that follow the end of a stream change no run of 16-bit numbers that
/// lies before it.
pub proof fn lemma_extension_u16_run(data: Seq<u8>, more: Seq<u8>, at: int, count: int)
    requires
        0 <= count,
        fits(data, at, 2 * count),
    ensures
        u16_le_run(data + more, at, count) == u16_le_run(data, at, count),
{
}

/// Reads a `u16` with binrw's `BinReaderExt::read_le`, from a cursor over
/// `data` placed at `pos`.
///
/// Trusted: the read succeeds exactly when two bytes are left at `pos`, and
/// then yields them as a little-endian number.
#[verifier::external_body]
fn binrw_u16_le(data: &[u8], pos: usize) -> (r: Result<u16, binrw::Error>)
    ensures
        r is Ok <==> fits(data@, pos as int, 2),
        r matches Ok(v) ==> v == u16_le_at(data@, pos as int),
{
    let mut cursor = Cursor::new(data);
    cursor.set_position(pos as u64);
    cursor.read_le::<u16>()
}

/// Reads a `u32` with binrw's `BinReaderExt::read_le`, from a cursor over
/// `data` placed at `pos`.
///
/// Trusted: the read succeeds exactly when four bytes are left at `pos`, and
/// then yields them as a little-endian number.
#[verifier::external_body]
fn binrw_u32_le(data: &[u8], pos: usize) -> (r: Result<u32, binrw::Error>)
    ensures
        r is Ok <==> fits(data@, pos as int, 4),
        r matches Ok(v) ==> v == u32_le_at(data@, pos as int),
{
    let mut cursor = Cursor::new(data);
    cursor.set_position(pos as u64);
    cursor.read_le::<u32>()
}

/// Reads a `u64` with binrw's `BinReaderExt::read_le`, from a cursor over
/// `data` placed at `pos`.
///
/// Trusted: the read succeeds exactly when eight bytes are left at `pos`, and
/// then yields them as a little-endian number.
#[verifier::external_body]
fn binrw_u64_le(data: &[u8], pos: usize) -> (r: Result<u64, binrw::Error>)
    ensures
        r is Ok <==> fits(data@, pos as int, 8),
        r matches Ok(v) ==> v == u64_le_at(data@, pos as int),
{
    let mut cursor = Cursor::new(data);
    cursor.set_position(pos as u64);
    cursor.read_le::<u64>()
}

/// Reads the byte at `pos`.
pub fn read_u8(data: &[u8], pos: usize) -> (r: Result<(u8, usize), DecodeError>)
    ensures
        match r {
            Ok((v, next)) => fits(data@, pos as int, 1) && v == data@[pos as int] && next == pos
                + 1,
            Err(e) => !fits(data@, pos as int, 1) && e == DecodeError::unexpected_end(pos as int),
        },
{
    if pos < data.len() {
        Ok((data[pos], pos + 1))
    } else {
        Err(DecodeError { kind: ErrorKind::UnexpectedEnd, offset: pos })
    }
}

/// Reads a little-endian 16-bit number at `pos`.
pub fn read_u16_le(data: &[u8], pos: usize) -> (r: Result<(u16, usize), DecodeError>)
    ensures
        match r {
            Ok((v, next)) => fits(data@, pos as int, 2) && v == u16_le_at(data@, pos as int)
                && next == pos + 2,
            Err(e) => !fits(data@, pos as int, 2) && e == DecodeError::unexpected_end(pos as int),
        },
{
    match binrw_u16_le(data, pos) {
        Ok(v) => {
            assert(pos + 2 <= data.len());
            Ok((v, pos + 2))
        },
        Err(_) => Err(DecodeError { kind: ErrorKind::UnexpectedEnd, offset: pos }),
    }
}

/// Reads a little-endian 32-bit number at `pos`.
pub fn read_u32_le(data: &[u8], pos: usize) -> (r: Result<(u32, usize), DecodeError>)
    ensures
        match r {
            Ok((v, next)) => fits(data@, pos as int, 4) && v == u32_le_at(data@, pos as int)
                && next == pos + 4,
            Err(e) => !fits(data@, pos as int, 4) && e == DecodeError::unexpected_end(pos as int),
        },
{
    match binrw_u32_le(data, pos) {
        Ok(v) => {
            assert(pos + 4 <= data.len());
            Ok((v, pos + 4))
        },
        Err(_) => Err(DecodeError { kind: ErrorKind::UnexpectedEnd, offset: pos }),
    }
}

/// Reads a little-endian 64-bit number at `pos`.
pub fn read_u64_le(data: &[u8], pos: usize) -> (r: Result<(u64, usize), DecodeError>)
    ensures
        match r {
            Ok((v, next)) => fits(data@, pos as int, 8) && v == u64_le_at(data@, pos as int)
                && next == pos + 8,
            Err(e) => !fits(data@, pos as int, 8) && e == DecodeError::unexpected_end(pos as int),
        },
{
    match binrw_u64_le(data, pos) {
        Ok(v) => {
            assert(pos + 8 <= data.len());
            Ok((v, pos + 8))
        },
        Err(_) => Err(DecodeError { kind: ErrorKind::UnexpectedEnd, offset: pos }),
    }
}

/// Borrows the `n` bytes at `pos`.
pub fn take(data: &[u8], pos: usize, n: usize) -> (r: Result<(&[u8], usize), DecodeError>)
    ensures
        match r {
            Ok((run, next)) => fits(data@, pos as int, n as int) && run@ == data@.subrange(
                pos as int,
                pos + n,
            ) && next == pos + n,
            Err(e) => !fits(data@, pos as int, n as int) && e == DecodeError::unexpected_end(
                pos as int,
            ),
        },
{
    if pos <= data.len() && n <= data.len() - pos {
        Ok((slice_subrange(data, pos, pos + n), pos + n))
    } else {
        Err(DecodeError { kind: ErrorKind::UnexpectedEnd, offset: pos })
    }
}

/// Reads exactly `n` raw bytes at `pos`.
pub fn read_bytes(data: &[u8], pos: usize, n: usize) -> (r: Result<(Vec<u8>, usize), DecodeError>)
    ensures
        match r {
            Ok((bytes, next)) => fits(data@, pos as int, n as int) && bytes@ == data@.subrange(
                pos as int,
                pos + n,
            ) && next == pos + n,
            Err(e) => !fits(data@, pos as int, n as int) && e == DecodeError::unexpected_end(
                pos as int,
            ),
        },
{
    let (run, next) = take(data, pos, n)?;
    Ok((slice_to_vec(run), next))
}

/// Reads `count` little-endian 16-bit numbers stored back to back at `pos`.
pub fn read_u16_le_run(data: &[u8], pos: usize, count: usize) -> (r: Result<
    (Vec<u16>, usize),
    DecodeError,
>)
    ensures
        match r {
            Ok((values, next)) => fits(data@, pos as int, 2 * count) && values@ == u16_le_run(
                data@,
                pos as int,
                count as int,
            ) && next == pos + 2 * count,
            Err(e) => !fits(data@, pos as int, 2 * count) && e == DecodeError::unexpected_end(
                u16_run_stop(data@, pos as int),
            ),
        },
{
    if pos > data.len() {
        return Err(DecodeError { kind: ErrorKind::UnexpectedEnd, offset: pos });
    }
    let mut values: Vec<u16> = Vec::new();
    let mut at: usize = pos;
    let mut i: usize = 0;
    while i < count
        invariant
            i <= count,
            fits(data@, pos as int, 2 * i),
            at == pos + 2 * i,
            values@ == u16_le_run(data@, pos as int, i as int),
        decreases count - i,
    {
        match read_u16_le(data, at) {
            Ok((value, next)) => {
                values.push(value);
                at = next;
                i += 1;
            },
            Err(e) => {
                return Err(e);
            },
        }
    }
    Ok((values, at))
}

/// Moves a reader that stands at `pos` to the absolute position `target`.
///
/// The end of the stream is a valid target; anything beyond it is not.
pub fn seek(data: &[u8], pos: usize, target: usize) -> (r: Result<usize, DecodeError>)
    ensures
        match r {
            Ok(next) => target <= data@.len() && next == target,
            Err(e) => target > data@.len() && e == DecodeError::seek_out_of_range(pos as int),
        },
{
    if target <= data.len() {
        Ok(target)
    } else {
        Err(DecodeError { kind: ErrorKind::SeekOutOfRange, offset: pos })
    }
}

/// Moves a reader that stands at `pos` forward over `n` bytes that are not
/// read.
pub fn skip(data: &[u8], pos: usize, n: usize) -> (r: Result<usize, DecodeError>)
    ensures
        match r {
            Ok(next) => pos + n <= data@.len() && next == pos + n,
            Err(e) => pos + n > data@.len() && e == DecodeError::seek_out_of_range(pos as int),
        },
{
    match pos.checked_add(n) {
        Some(target) => seek(data, pos, target),
        None => {
            assert(pos + n > data.len());
            Err(DecodeError { kind: ErrorKind::SeekOutOfRange, offset: pos })
        },
    }
}

/// Reads `n` scrambled bytes at `pos` as text.
pub fn read_text(data: &[u8], pos: usize, n: usize) -> (r: Result<(String, usize), DecodeError>)
    ensures
        match r {
            Ok((text, next)) => fits(data@, pos as int, n as int) && text@ == text_at(
                data@,
                pos as int,
                n as int,
            ) && next == pos + n,
            Err(e) => !fits(data@, pos as int, n as int) && e == DecodeError::unexpected_end(
                pos as int,
            ),
        },
{
    let (mut bytes, next) = read_bytes(data, pos, n)?;
    deobfuscate_in_place(bytes.as_mut_slice());
    Ok((text_from_bytes(bytes.as_slice()), next))
}

/// The width in bytes of a stored hash.
pub const HASH_LEN: usize = 32;

/// Reads the scrambled hash stored in the 32 bytes at `pos`.
pub fn parse_deobfuscated_md5(data: &[u8], pos: usize) -> (r: Result<(String, usize), DecodeError>)
    ensures
        match r {
            Ok((hash, next)) => fits(data@, pos as int, 32) && hash@ == text_at(
                data@,
                pos as int,
                32,
            ) && next == pos + 32,
            Err(e) => !fits(data@, pos as int, 32) && e == DecodeError::unexpected_end(pos as int),
        },
{
    read_text(data, pos, HASH_LEN)
}

} // verus!
