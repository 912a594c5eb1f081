//! The two recovery layouts.
//!
//! A recovery record occupies a reserved header block of fixed size. The
//! block is taken from the stream as a whole before any field is decoded, and
//! the fields are then found at fixed offsets inside it, all little-endian.

use vstd::prelude::*;
use crate::codes::{Device, Platform};
use crate::error::{refines, DecodeError};
use crate::reader::{
    fits, lemma_extension_run, parse_deobfuscated_md5, read_u16_le_run, read_u32_le, read_u64_le,
    read_u8, take, text_at, u16_le_run, u32_le_at, u64_le_at,
};

verus! {

/// The size in bytes of the header block of a recovery record.
pub const RECOVERY_BLOCK_LEN: usize = 131068;

/// What a first-layout recovery record says about its target: a device, or
/// a platform with a board.
#[derive(Debug)]
pub enum RecoveryDevice {
    /// A device model, with the code that named it.
    Device(Device, u16),
    /// A platform and the code of a board.
    Platform { platform: Platform, board: u32 },
}

impl RecoveryDevice {
    /// How the code field and the board field are read under the header
    /// revision `header_rev`.
    ///
    /// Revision 2 takes the code as a platform and pairs it with the board.
    /// Every other revision takes the low 16 bits of the code as a device and
    /// ignores the rest.
    pub open spec fn interpret(header_rev: u32, code: u32, board: u32) -> RecoveryDevice {
        if header_rev == 2 {
            RecoveryDevice::Platform { platform: Platform::lookup(code as int), board }
        } else {
            RecoveryDevice::Device(
                Device::lookup(code as int % 0x1_0000),
                (code as int % 0x1_0000) as u16,
            )
        }
    }
}

/// A recovery record of the first layout.
#[derive(Debug)]
pub struct RecoveryV1 {
    /// The hash of the payload, as text.
    pub md5_hash: String,
    /// The first magic number of the header.
    pub magic1: u32,
    /// The second magic number of the header.
    pub magic2: u32,
    /// The minor version.
    pub minor: u32,
    /// The header revision, which decides how the target is given.
    pub header_rev: u32,
    /// The device, or the platform and board, that the record is for.
    pub device_info: RecoveryDevice,
    /// The target revision; present under header revision 2 only.
    pub target_ota: Option<u64>,
}

/// The mathematical content of a `RecoveryV1`.
pub struct RecoveryV1View {
    pub md5_hash: Seq<char>,
    pub magic1: u32,
    pub magic2: u32,
    pub minor: u32,
    pub header_rev: u32,
    pub device_info: RecoveryDevice,
    pub target_ota: Option<u64>,
}

impl View for RecoveryV1 {
    type V = RecoveryV1View;

    open spec fn view(&self) -> RecoveryV1View {
        RecoveryV1View {
            md5_hash: self.md5_hash@,
            magic1: self.magic1,
            magic2: self.magic2,
            minor: self.minor,
            header_rev: self.header_rev,
            device_info: self.device_info,
            target_ota: self.target_ota,
        }
    }
}

impl RecoveryV1 {
    /// The header revision alone decides how a block is read: revision 2
    /// gives a platform and a target counter, every other revision gives a
    /// device and no target counter.
    pub proof fn lemma_revision_decides(block: Seq<u8>)
        ensures
            Self::layout(block).header_rev == 2 <==> Self::layout(block).device_info is Platform,
            Self::layout(block).header_rev != 2 <==> Self::layout(block).device_info is Device,
            Self::layout(block).header_rev == 2 <==> Self::layout(block).target_ota is Some,
    {
    }

    /// The record that a header block holds.
    ///
    /// The target counter at offset 4 counts only under header revision 2.
    pub open spec fn layout(block: Seq<u8>) -> RecoveryV1View {
        let header_rev = u32_le_at(block, 60);
        RecoveryV1View {
            md5_hash: text_at(block, 12, 32),
            magic1: u32_le_at(block, 44),
            magic2: u32_le_at(block, 48),
            minor: u32_le_at(block, 52),
            header_rev,
            device_info: RecoveryDevice::interpret(
                header_rev,
                u32_le_at(block, 56),
                u32_le_at(block, 64),
            ),
            target_ota: if header_rev == 2 {
                Some(u64_le_at(block, 4))
            } else {
                None
            },
        }
    }

    /// The outcome of decoding a record of this layout at `at`: the block
    /// must be there in full, and the position moves past it.
    pub open spec fn spec_parse(data: Seq<u8>, at: int) -> Result<(RecoveryV1View, int), DecodeError> {
        if fits(data, at, RECOVERY_BLOCK_LEN as int) {
            Ok((Self::layout(data.subrange(at, at + RECOVERY_BLOCK_LEN)), at + RECOVERY_BLOCK_LEN))
        } else {
            Err(DecodeError::unexpected_end(at))
        }
    }

    /// A record that decodes is the same record whatever follows the stream.
    pub proof fn lemma_extension(data: Seq<u8>, more: Seq<u8>, at: int)
        requires
            Self::spec_parse(data, at) is Ok,
        ensures
            Self::spec_parse(data + more, at) == Self::spec_parse(data, at),
    {
        lemma_extension_run(data, more, at, RECOVERY_BLOCK_LEN as int);
    }

    /// Decodes a record of this layout from the header block at `pos`.
    pub fn parse(data: &[u8], pos: usize) -> (r: Result<(RecoveryV1, usize), DecodeError>)
        ensures
            refines(r, Self::spec_parse(data@, pos as int)),
            r matches Ok((_, next)) ==> pos < next <= data@.len(),
    {
        let (block, next) = take(data, pos, RECOVERY_BLOCK_LEN)?;
        let (target_ota_rev2, _) = read_u64_le(block, 4)?;
        let (md5_hash, at) = parse_deobfuscated_md5(block, 12)?;
        let (magic1, at) = read_u32_le(block, at)?;
        let (magic2, at) = read_u32_le(block, at)?;
        let (minor, _) = read_u32_le(block, at)?;
        let (device_or_platform_code, at) = read_u32_le(block, 56)?;
        let (header_rev, at) = read_u32_le(block, at)?;
        let (board_code_rev2, _) = read_u32_le(block, at)?;

        let device_info = if header_rev == 2 {
            RecoveryDevice::Platform {
                platform: Platform::from_repr(device_or_platform_code as usize).unwrap_or_default(),
                board: board_code_rev2,
            }
        } else {
            let device_code: u16 = device_or_platform_code as u16;
            assert(device_code == device_or_platform_code as int % 0x1_0000) by (bit_vector)
                requires
                    device_code == device_or_platform_code as u16,
            ;
            RecoveryDevice::Device(
                Device::from_repr(device_code as usize).unwrap_or_default(),
                device_code,
            )
        };
        let target_ota = if header_rev == 2 {
            Some(target_ota_rev2)
        } else {
            None
        };
        Ok(
            (
                RecoveryV1 {
                    md5_hash,
                    magic1,
                    magic2,
                    minor,
                    header_rev,
                    device_info,
                    target_ota,
                },
                next,
            ),
        )
    }
}

/// A recovery record of the second layout.
#[derive(Debug)]
pub struct RecoveryV2 {
    /// The target revision.
    pub target_ota: u64,
    /// The hash of the payload, as text.
    pub md5_hash: String,
    /// The first magic number of the header.
    pub magic1: u32,
    /// The second magic number of the header.
    pub magic2: u32,
    /// The minor version.
    pub minor: u32,
    /// The code of the platform that the record is for.
    pub platform_code: u32,
    /// The header revision.
    pub header_rev: u32,
    /// The code of the board that the record is for.
    pub board: u32,
    /// The codes of the devices that the record is for, in stored order.
    pub device_codes: Vec<u16>,
}

/// The mathematical content of a `RecoveryV2`.
pub struct RecoveryV2View {
    pub target_ota: u64,
    pub md5_hash: Seq<char>,
    pub magic1: u32,
    pub magic2: u32,
    pub minor: u32,
    pub platform_code: u32,
    pub header_rev: u32,
    pub board: u32,
    pub device_codes: Seq<u16>,
}

impl View for RecoveryV2 {
    type V = RecoveryV2View;

    open spec fn view(&self) -> RecoveryV2View {
        RecoveryV2View {
            target_ota: self.target_ota,
            md5_hash: self.md5_hash@,
            magic1: self.magic1,
            magic2: self.magic2,
            minor: self.minor,
            platform_code: self.platform_code,
            header_rev: self.header_rev,
            board: self.board,
            device_codes: self.device_codes@,
        }
    }
}

impl RecoveryV2 {
    /// The record that a header block holds.
    ///
    /// Seven unused bytes follow the board code; the byte after them counts
    /// the device codes that come next.
    pub open spec fn layout(block: Seq<u8>) -> RecoveryV2View {
        RecoveryV2View {
            target_ota: u64_le_at(block, 4),
            md5_hash: text_at(block, 12, 32),
            magic1: u32_le_at(block, 44),
            magic2: u32_le_at(block, 48),
            minor: u32_le_at(block, 52),
            platform_code: u32_le_at(block, 56),
            header_rev: u32_le_at(block, 60),
            board: u32_le_at(block, 64),
            device_codes: u16_le_run(block, 76, block[75] as int),
        }
    }

    /// The outcome of decoding a record of this layout at `at`: the block
    /// must be there in full, and the position moves past it.
    pub open spec fn spec_parse(data: Seq<u8>, at: int) -> Result<(RecoveryV2View, int), DecodeError> {
        if fits(data, at, RECOVERY_BLOCK_LEN as int) {
            Ok((Self::layout(data.subrange(at, at + RECOVERY_BLOCK_LEN)), at + RECOVERY_BLOCK_LEN))
        } else {
            Err(DecodeError::unexpected_end(at))
        }
    }

    /// A record that decodes is the same record whatever follows the stream.
    pub proof fn lemma_extension(data: Seq<u8>, more: Seq<u8>, at: int)
        requires
            Self::spec_parse(data, at) is Ok,
        ensures
            Self::spec_parse(data + more, at) == Self::spec_parse(data, at),
    {
        lemma_extension_run(data, more, at, RECOVERY_BLOCK_LEN as int);
    }

    /// Decodes a record of this layout from the header block at `pos`.
    pub fn parse(data: &[u8], pos: usize) -> (r: Result<(RecoveryV2, usize), DecodeError>)
        ensures
            refines(r, Self::spec_parse(data@, pos as int)),
            r matches Ok((_, next)) ==> pos < next <= data@.len(),
    {
        let (block, next) = take(data, pos, RECOVERY_BLOCK_LEN)?;
        let (target_ota, at) = read_u64_le(block, 4)?;
        let (md5_hash, at) = parse_deobfuscated_md5(block, at)?;
        let (magic1, at) = read_u32_le(block, at)?;
        let (magic2, at) = read_u32_le(block, at)?;
        let (minor, at) = read_u32_le(block, at)?;
        let (platform_code, at) = read_u32_le(block, at)?;
        let (header_rev, at) = read_u32_le(block, at)?;
        let (board, at) = read_u32_le(block, at)?;
        let (num_devices, at) = read_u8(block, at + 7)?;
        let (device_codes, _) = read_u16_le_run(block, at, num_devices as usize)?;
        Ok(
            (
                RecoveryV2 {
                    target_ota,
                    md5_hash,
                    magic1,
                    magic2,
                    minor,
                    platform_code,
                    header_rev,
                    board,
                    device_codes,
                },
                next,
            ),
        )
    }
}

} // verus!
