use kindle_tool::recovery::RECOVERY_BLOCK_LEN;
use kindle_tool::{obfuscate_in_place, DecodeError, ErrorKind, HeaderStream, UpdateBundle};

fn scrambled(plain: &[u8]) -> Vec<u8> {
    let mut stored = plain.to_vec();
    obfuscate_in_place(&mut stored);
    stored
}

/// A container of the second update layout with one device and two strings.
fn update() -> Vec<u8> {
    let mut out = b"FD04".to_vec();
    out.extend_from_slice(&1u64.to_le_bytes());
    out.extend_from_slice(&2u64.to_le_bytes());
    out.extend_from_slice(&1u16.to_le_bytes());
    out.extend_from_slice(&0x0E85u16.to_le_bytes());
    out.extend_from_slice(&[1, 0]);
    out.extend_from_slice(&scrambled(b"0123456789abcdef0123456789abcdef"));
    out.extend_from_slice(&2u16.to_le_bytes());
    for text in [&b"first"[..], &b"second string"[..]] {
        out.extend_from_slice(&(text.len() as u16).to_le_bytes());
        out.extend_from_slice(&scrambled(text));
    }
    out
}

/// Feeds `data` in pieces of `piece_len` bytes until an answer comes.
fn header_in_pieces(data: &[u8], piece_len: usize) -> Result<UpdateBundle, DecodeError> {
    let mut stream = HeaderStream::new();
    for piece in data.chunks(piece_len) {
        if let Some(outcome) = stream.feed(piece) {
            return outcome;
        }
    }
    stream.finish()
}

#[test]
fn a_header_fed_in_pieces_is_the_header_of_the_whole() {
    let mut data = update();
    let header_len = data.len();
    data.extend_from_slice(&[0x77; 500]);
    let (whole, end) = UpdateBundle::decode(&data).unwrap();
    assert_eq!(end, header_len);
    for piece_len in [1usize, 3, 4, 50, header_len - 1, header_len, header_len + 1, 4096] {
        let fed = header_in_pieces(&data, piece_len).unwrap();
        assert_eq!(format!("{:?}", fed), format!("{:?}", whole));
    }
}

#[test]
fn no_answer_comes_before_the_header_is_complete() {
    let data = update();
    let mut stream = HeaderStream::new();
    for byte in &data[..data.len() - 1] {
        assert!(stream.feed(&[*byte]).is_none());
    }
    let answer = stream.feed(&data[data.len() - 1..]);
    let UpdateBundle::OtaV2Fd04(record) = answer.unwrap().unwrap() else {
        panic!("the container has the second update layout")
    };
    assert_eq!(record.device_codes, vec![0x0E85]);
    assert_eq!(record.metadata[0].0, "first");
    assert_eq!(record.metadata[1].0, "second string");
}

#[test]
fn an_unknown_tag_is_answered_at_once() {
    let mut stream = HeaderStream::new();
    assert!(stream.feed(b"FC0").is_none());
    let answer = stream.feed(b"9 and more").unwrap();
    assert_eq!(
        answer.unwrap_err(),
        DecodeError { kind: ErrorKind::UnknownMagic(*b"FC09"), offset: 0 }
    );
}

#[test]
fn a_stream_that_ends_inside_the_header_fails_at_its_end() {
    let data = update();
    let mut stream = HeaderStream::new();
    // Tag, counters, count, one device and both flag bytes are there; the hash is not.
    assert!(stream.feed(&data[..30]).is_none());
    assert_eq!(
        stream.finish().unwrap_err(),
        DecodeError { kind: ErrorKind::UnexpectedEnd, offset: 26 }
    );
    assert_eq!(
        HeaderStream::new().finish().unwrap_err(),
        DecodeError { kind: ErrorKind::UnexpectedEnd, offset: 0 }
    );
    assert_eq!(
        header_in_pieces(&data[..data.len() - 1], 7).unwrap_err(),
        DecodeError { kind: ErrorKind::UnexpectedEnd, offset: data.len() - 13 }
    );
}

#[test]
fn a_recovery_header_needs_its_whole_block() {
    let mut data = b"FB01".to_vec();
    data.extend_from_slice(&vec![0u8; RECOVERY_BLOCK_LEN]);
    let mut stream = HeaderStream::new();
    let mut answers = 0;
    for piece in data.chunks(8192) {
        if let Some(outcome) = stream.feed(piece) {
            assert!(matches!(outcome, Ok(UpdateBundle::RecoveryV1Fb01(_))));
            answers += 1;
        }
    }
    assert_eq!(answers, 1);
}
