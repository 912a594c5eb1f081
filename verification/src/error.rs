//! The ways in which a decode can fail.

use vstd::prelude::*;

verus! {

/// The kind of failure that ended a decode.
#[derive(Debug, Clone, Copy, PartialEq, Eq)]
pub enum ErrorKind {
    /// The stream ended before a field or block was complete.
    UnexpectedEnd,
    /// A seek asked for a position that lies beyond the end of the stream.
    SeekOutOfRange,
    /// The four bytes where a container starts are not a known magic tag.
    UnknownMagic([u8; 4]),
    /// Signature envelopes are nested more deeply than the caller allowed.
    RecursionLimitExceeded,
}

/// A failed decode: what went wrong, and where the reader stood when the
/// operation that failed began.
///
/// Every failure is final for the decode that met it: no partial record is
/// handed out.
#[derive(Debug, Clone, Copy, PartialEq, Eq)]
pub struct DecodeError {
    /// What went wrong.
    pub kind: ErrorKind,
    /// The position of the reader when the operation that failed began. For a
    /// tag that was refused, this is the position of the tag.
    pub offset: usize,
}

impl DecodeError {
    /// Whether this failure says that the stream was too short: a longer
    /// stream with the same beginning might decode.
    pub open spec fn spec_is_truncation(&self) -> bool {
        self.kind is UnexpectedEnd || self.kind is SeekOutOfRange
    }

    /// Whether this failure says that the stream was too short: a longer
    /// stream with the same beginning might decode.
    #[verifier::when_used_as_spec(spec_is_truncation)]
    pub fn is_truncation(&self) -> (short: bool)
        ensures
            short == self.spec_is_truncation(),
    {
        match self.kind {
            ErrorKind::UnexpectedEnd => true,
            ErrorKind::SeekOutOfRange => true,
            _ => false,
        }
    }

    /// The failure of a read that began at `offset` and ran past the end.
    pub open spec fn unexpected_end(offset: int) -> DecodeError {
        DecodeError { kind: ErrorKind::UnexpectedEnd, offset: offset as usize }
    }

    /// The failure of a seek requested while the reader stood at `offset`.
    pub open spec fn seek_out_of_range(offset: int) -> DecodeError {
        DecodeError { kind: ErrorKind::SeekOutOfRange, offset: offset as usize }
    }

    /// The failure of a dispatch on the unknown tag `tag`, read at `offset`.
    pub open spec fn unknown_magic(tag: Seq<u8>, offset: int) -> DecodeError {
        DecodeError {
            kind: ErrorKind::UnknownMagic([tag[0], tag[1], tag[2], tag[3]]),
            offset: offset as usize,
        }
    }

    /// The failure to open one more signature envelope, whose tag stands at
    /// `offset`.
    pub open spec fn recursion_limit(offset: int) -> DecodeError {
        DecodeError { kind: ErrorKind::RecursionLimitExceeded, offset: offset as usize }
    }
}

/// Whether the outcome `got` of a decode is the one that its model `want`
/// prescribes: the same failure, or a value with the prescribed view together
/// with the prescribed position after it.
pub open spec fn refines<T: View>(
    got: Result<(T, usize), DecodeError>,
    want: Result<(T::V, int), DecodeError>,
) -> bool {
    match got {
        Ok((value, next)) => want == Ok::<(T::V, int), DecodeError>((value@, next as int)),
        Err(e) => want == Err::<(T::V, int), DecodeError>(e),
    }
}

/// Whether an outcome no longer depends on what may follow the stream: a
/// success, or a failure that is not due to the stream being too short.
pub open spec fn settled<V>(outcome: Result<(V, int), DecodeError>) -> bool {
    match outcome {
        Ok(_) => true,
        Err(e) => !e.is_truncation(),
    }
}

} // verus!
