//! Decoder for the firmware update containers of a family of e-reader devices.
//!
//! A container starts with a four-byte magic tag that selects its layout. The
//! strings inside a container, and the archive that follows its header, are
//! stored with a light byte-wise obfuscation that this crate also reverses.
//!
//! Streams are byte slices held in memory. Decoding is a pure function of the
//! bytes: it yields one complete record tree or one failure, never a partial
//! record.
//!
//! - [`transform`]: the byte transform and its laws.
//! - [`reader`]: positioned reads of integers, byte runs and scrambled text.
//! - [`text`]: best-effort text from bytes.
//! - [`codes`]: the dictionaries of device and platform names.
//! - [`ota`], [`recovery`]: the decoders of the four record layouts.
//! - [`bundle`]: the dispatcher on the magic tag, and the signature envelope.
//! - [`header`]: decoding a header from a stream that arrives in pieces.
//! - [`payload`]: extraction of the payload, whole or piece by piece.
//! - [`encoding`]: the stored form of a record, to state that decoding loses
//!   nothing.
//! - [`error`]: what a failed decode reports.

pub mod bundle;
pub mod codes;
pub mod encoding;
pub mod error;
pub mod header;
pub mod ota;
pub mod payload;
pub mod reader;
pub mod recovery;
pub mod text;
pub mod transform;

pub use crate::bundle::{Magic, SignatureEnvelope, UpdateBundle, MAX_ENVELOPE_DEPTH};
pub use crate::codes::{Device, Platform};
pub use crate::error::{DecodeError, ErrorKind};
pub use crate::header::HeaderStream;
pub use crate::ota::{MetaString, OtaV1, OtaV2};
pub use crate::payload::{dump_payload, PayloadStream};
pub use crate::reader::parse_deobfuscated_md5;
pub use crate::recovery::{RecoveryDevice, RecoveryV1, RecoveryV2};
pub use crate::transform::{
    deobfuscate_byte, deobfuscate_in_place, obfuscate_byte, obfuscate_in_place,
};
