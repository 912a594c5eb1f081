use kindle_tool::recovery::RECOVERY_BLOCK_LEN;
use kindle_tool::{
    deobfuscate_in_place, dump_payload, obfuscate_in_place, DecodeError, ErrorKind, PayloadStream,
};

fn scrambled(plain: &[u8]) -> Vec<u8> {
    let mut stored = plain.to_vec();
    obfuscate_in_place(&mut stored);
    stored
}

fn unscrambled(stored: &[u8]) -> Vec<u8> {
    let mut plain = stored.to_vec();
    deobfuscate_in_place(&mut plain);
    plain
}

/// A minimal container of the first update layout.
fn minimal_header() -> Vec<u8> {
    let mut out = b"FC02".to_vec();
    out.extend_from_slice(&scrambled(b"0123456789abcdef0123456789abcdef"));
    out.extend_from_slice(&[0u8; 12]);
    out
}

fn arbitrary(n: usize) -> Vec<u8> {
    (0..n).map(|i| (i * 31 + i / 256 + 5) as u8).collect()
}

#[test]
fn payload_after_a_minimal_header_is_unscrambled_byte_for_byte() {
    for n in [0usize, 1, 2, 100, 8191, 8192, 8193, 16384, 20000] {
        let payload = arbitrary(n);
        let mut data = minimal_header();
        assert_eq!(data.len(), 48);
        data.extend_from_slice(&payload);
        let mut out = Vec::new();
        assert_eq!(dump_payload(&data, &mut out), Ok(()));
        assert_eq!(out.len(), n);
        assert_eq!(out, unscrambled(&payload));
    }
}

#[test]
fn payload_of_a_known_archive_header() {
    // A gzip stream starts with 1F 8B 08.
    let mut data = minimal_header();
    data.extend_from_slice(&scrambled(&[0x1F, 0x8B, 0x08, 0x00]));
    let mut out = Vec::new();
    assert_eq!(dump_payload(&data, &mut out), Ok(()));
    assert_eq!(out, vec![0x1F, 0x8B, 0x08, 0x00]);
}

#[test]
fn payload_is_appended_to_what_the_writer_holds() {
    let mut data = minimal_header();
    data.extend_from_slice(&[0x00, 0x12]);
    let mut out = vec![1u8, 2, 3];
    assert_eq!(dump_payload(&data, &mut out), Ok(()));
    assert_eq!(out, vec![1, 2, 3, 0xA7, 0x86]);
}

#[test]
fn payload_after_an_envelope_starts_after_the_inner_header() {
    let mut data = b"SP01".to_vec();
    data.extend_from_slice(&2u32.to_le_bytes());
    data.extend_from_slice(&[0u8; 56]);
    data.extend_from_slice(&[0x5A; 256]);
    data.extend_from_slice(&minimal_header());
    let payload = arbitrary(300);
    data.extend_from_slice(&payload);
    let mut out = Vec::new();
    assert_eq!(dump_payload(&data, &mut out), Ok(()));
    assert_eq!(out, unscrambled(&payload));
}

#[test]
fn nothing_is_written_when_the_header_does_not_decode() {
    let mut out = vec![9u8];
    assert_eq!(
        dump_payload(b"ZZZZ and more", &mut out),
        Err(DecodeError { kind: ErrorKind::UnknownMagic(*b"ZZZZ"), offset: 0 })
    );
    assert_eq!(out, vec![9]);
    // The tag, the hash and the first counter are there; the second counter is not.
    assert_eq!(
        dump_payload(&minimal_header()[..40], &mut out),
        Err(DecodeError { kind: ErrorKind::UnexpectedEnd, offset: 40 })
    );
    assert_eq!(out, vec![9]);
}

/// Feeds `data` in pieces of `piece_len` bytes and collects what is set free.
fn stream_in_pieces(data: &[u8], piece_len: usize) -> Result<Vec<u8>, DecodeError> {
    let mut stream = PayloadStream::new();
    let mut out = Vec::new();
    for piece in data.chunks(piece_len) {
        stream.feed(piece, &mut out)?;
    }
    stream.finish()?;
    Ok(out)
}

#[test]
fn streaming_in_pieces_of_any_size_equals_dumping_the_whole() {
    let payload = arbitrary(5000);
    let mut data = minimal_header();
    data.extend_from_slice(&payload);
    let mut whole = Vec::new();
    assert_eq!(dump_payload(&data, &mut whole), Ok(()));
    for piece_len in [1usize, 2, 3, 47, 48, 49, 100, 4096, 5048, 10000] {
        assert_eq!(stream_in_pieces(&data, piece_len), Ok(whole.clone()));
    }
}

#[test]
fn streaming_sets_nothing_free_before_the_header_is_complete() {
    let mut data = minimal_header();
    data.extend_from_slice(&[0x00, 0x12, 0x7A]);
    let mut stream = PayloadStream::new();
    let mut out = Vec::new();
    assert_eq!(stream.feed(&data[..20], &mut out), Ok(()));
    assert!(out.is_empty());
    assert_eq!(stream.feed(&data[20..47], &mut out), Ok(()));
    assert!(out.is_empty());
    // The piece that completes the header also brings the first payload byte.
    assert_eq!(stream.feed(&data[47..49], &mut out), Ok(()));
    assert_eq!(out, vec![0xA7]);
    assert_eq!(stream.feed(&data[49..], &mut out), Ok(()));
    assert_eq!(out, vec![0xA7, 0x86, 0x00]);
    assert_eq!(stream.feed(&[], &mut out), Ok(()));
    assert_eq!(out, vec![0xA7, 0x86, 0x00]);
    assert_eq!(stream.finish(), Ok(()));
}

#[test]
fn streaming_a_header_without_payload() {
    let data = minimal_header();
    assert_eq!(stream_in_pieces(&data, 7), Ok(vec![]));
}

#[test]
fn streaming_a_recovery_header() {
    let mut data = b"FB03".to_vec();
    data.extend_from_slice(&vec![0u8; RECOVERY_BLOCK_LEN]);
    let payload = arbitrary(9000);
    data.extend_from_slice(&payload);
    assert_eq!(stream_in_pieces(&data, 8192), Ok(unscrambled(&payload)));
}

#[test]
fn streaming_fails_at_once_on_an_unknown_tag() {
    let mut stream = PayloadStream::new();
    let mut out = Vec::new();
    assert_eq!(stream.feed(b"ZZ", &mut out), Ok(()));
    assert_eq!(
        stream.feed(b"ZZ", &mut out),
        Err(DecodeError { kind: ErrorKind::UnknownMagic(*b"ZZZZ"), offset: 0 })
    );
    assert!(out.is_empty());
    assert_eq!(
        stream.finish(),
        Err(DecodeError { kind: ErrorKind::UnknownMagic(*b"ZZZZ"), offset: 0 })
    );
}

#[test]
fn streaming_fails_at_the_end_when_the_header_is_cut_short() {
    let data = minimal_header();
    let mut stream = PayloadStream::new();
    let mut out = Vec::new();
    assert_eq!(stream.feed(&data[..40], &mut out), Ok(()));
    assert_eq!(
        stream.finish(),
        Err(DecodeError { kind: ErrorKind::UnexpectedEnd, offset: 40 })
    );
    assert!(out.is_empty());

    let empty = PayloadStream::new();
    assert_eq!(
        empty.finish(),
        Err(DecodeError { kind: ErrorKind::UnexpectedEnd, offset: 0 })
    );
}

#[test]
fn truncation_is_told_from_other_failures() {
    assert!(DecodeError { kind: ErrorKind::UnexpectedEnd, offset: 3 }.is_truncation());
    assert!(DecodeError { kind: ErrorKind::SeekOutOfRange, offset: 8 }.is_truncation());
    assert!(!DecodeError { kind: ErrorKind::UnknownMagic(*b"ZZZZ"), offset: 0 }.is_truncation());
    assert!(!DecodeError { kind: ErrorKind::RecursionLimitExceeded, offset: 0 }.is_truncation());
}
