use kindle_tool::reader::{
    parse_deobfuscated_md5, read_bytes, read_text, read_u16_le, read_u16_le_run, read_u32_le,
    read_u64_le, read_u8, seek, skip, take,
};
use kindle_tool::{obfuscate_in_place, DecodeError, ErrorKind};

fn unexpected_end(offset: usize) -> DecodeError {
    DecodeError { kind: ErrorKind::UnexpectedEnd, offset }
}

fn scrambled(plain: &[u8]) -> Vec<u8> {
    let mut stored = plain.to_vec();
    obfuscate_in_place(&mut stored);
    stored
}

#[test]
fn read_u8_gives_the_byte_and_the_next_position() {
    let data = [0x10u8, 0x20, 0x30];
    assert_eq!(read_u8(&data, 0), Ok((0x10, 1)));
    assert_eq!(read_u8(&data, 2), Ok((0x30, 3)));
    assert_eq!(read_u8(&data, 3), Err(unexpected_end(3)));
    assert_eq!(read_u8(&data, 9), Err(unexpected_end(9)));
}

#[test]
fn read_u16_le_puts_the_first_byte_low() {
    let data = [0xFFu8, 0x34, 0x12, 0xFF];
    assert_eq!(read_u16_le(&data, 1), Ok((0x1234, 3)));
    assert_eq!(read_u16_le(&data, 2), Ok((0xFF12, 4)));
}

#[test]
fn read_u32_le_puts_the_first_byte_low() {
    let data = [0x00u8, 0x78, 0x56, 0x34, 0x12, 0x00];
    assert_eq!(read_u32_le(&data, 1), Ok((0x1234_5678, 5)));
    assert_eq!(read_u32_le(&data, 0), Ok((0x3456_7800, 4)));
    assert_eq!(read_u32_le(&[0xFF, 0xFF, 0xFF, 0xFF], 0), Ok((u32::MAX, 4)));
}

#[test]
fn read_u64_le_puts_the_first_byte_low() {
    let data = [0xAAu8, 0x08, 0x07, 0x06, 0x05, 0x04, 0x03, 0x02, 0x01];
    assert_eq!(read_u64_le(&data, 1), Ok((0x0102_0304_0506_0708, 9)));
    assert_eq!(read_u64_le(&[0xFF; 8], 0), Ok((u64::MAX, 8)));
}

#[test]
fn integer_reads_fail_where_they_began_when_the_stream_is_short() {
    let data = [1u8, 2, 3, 4, 5, 6, 7];
    assert_eq!(read_u16_le(&data, 6), Err(unexpected_end(6)));
    assert_eq!(read_u16_le(&data, 7), Err(unexpected_end(7)));
    assert_eq!(read_u32_le(&data, 4), Err(unexpected_end(4)));
    assert_eq!(read_u64_le(&data, 0), Err(unexpected_end(0)));
    assert_eq!(read_u32_le(&data, 100), Err(unexpected_end(100)));
    assert_eq!(read_u32_le(&[], 0), Err(unexpected_end(0)));
}

#[test]
fn take_borrows_the_requested_run() {
    let data = [1u8, 2, 3, 4, 5];
    let (run, next) = take(&data, 1, 3).unwrap();
    assert_eq!(run, &[2u8, 3, 4][..]);
    assert_eq!(next, 4);
    let (run, next) = take(&data, 5, 0).unwrap();
    assert!(run.is_empty());
    assert_eq!(next, 5);
    assert_eq!(take(&data, 3, 3), Err(unexpected_end(3)));
    assert_eq!(take(&data, 6, 0), Err(unexpected_end(6)));
    assert_eq!(take(&data, 2, usize::MAX), Err(unexpected_end(2)));
}

#[test]
fn read_bytes_copies_the_requested_run() {
    let data = [9u8, 8, 7, 6];
    assert_eq!(read_bytes(&data, 0, 4), Ok((vec![9, 8, 7, 6], 4)));
    assert_eq!(read_bytes(&data, 2, 1), Ok((vec![7], 3)));
    assert_eq!(read_bytes(&data, 2, 3), Err(unexpected_end(2)));
}

#[test]
fn seek_accepts_the_end_and_refuses_what_lies_beyond() {
    let data = [0u8; 10];
    assert_eq!(seek(&data, 3, 0), Ok(0));
    assert_eq!(seek(&data, 3, 10), Ok(10));
    assert_eq!(
        seek(&data, 3, 11),
        Err(DecodeError { kind: ErrorKind::SeekOutOfRange, offset: 3 })
    );
}

#[test]
fn skip_moves_forward_inside_the_stream_only() {
    let data = [0u8; 10];
    assert_eq!(skip(&data, 4, 6), Ok(10));
    assert_eq!(skip(&data, 4, 0), Ok(4));
    assert_eq!(
        skip(&data, 4, 7),
        Err(DecodeError { kind: ErrorKind::SeekOutOfRange, offset: 4 })
    );
    assert_eq!(
        skip(&data, 4, usize::MAX),
        Err(DecodeError { kind: ErrorKind::SeekOutOfRange, offset: 4 })
    );
}

#[test]
fn read_u16_le_run_reads_the_numbers_in_order() {
    let data = [0xEEu8, 0x01, 0x00, 0x0E, 0x00, 0x02, 0x02];
    assert_eq!(read_u16_le_run(&data, 1, 3), Ok((vec![0x0001, 0x000E, 0x0202], 7)));
    assert_eq!(read_u16_le_run(&data, 1, 0), Ok((vec![], 1)));
    assert_eq!(read_u16_le_run(&data, 7, 0), Ok((vec![], 7)));
}

#[test]
fn read_u16_le_run_fails_at_the_first_incomplete_number() {
    let data = [0u8; 7];
    // Two numbers fit from position 2; the third would start at 6.
    assert_eq!(read_u16_le_run(&data, 2, 3), Err(unexpected_end(6)));
    assert_eq!(read_u16_le_run(&data, 1, 4), Err(unexpected_end(7)));
    assert_eq!(read_u16_le_run(&data, 8, 0), Err(unexpected_end(8)));
    assert_eq!(read_u16_le_run(&data, 8, 1), Err(unexpected_end(8)));
}

#[test]
fn read_text_unscrambles_ascii() {
    let mut data = vec![0u8; 3];
    data.extend_from_slice(&scrambled(b"hello"));
    assert_eq!(read_text(&data, 3, 5), Ok(("hello".to_string(), 8)));
    assert_eq!(read_text(&data, 3, 0), Ok((String::new(), 3)));
    assert_eq!(read_text(&data, 3, 6), Err(unexpected_end(3)));
}

#[test]
fn read_text_replaces_malformed_bytes() {
    // 0xFF never occurs in UTF-8; 0xC3 0xA9 is one two-byte character.
    let data = scrambled(&[b'a', 0xFF, b'b', 0xC3, 0xA9]);
    let (text, next) = read_text(&data, 0, 5).unwrap();
    assert_eq!(text, "a\u{FFFD}b\u{E9}");
    assert_eq!(next, 5);
}

#[test]
fn parse_deobfuscated_md5_reads_thirty_two_characters() {
    let hash = b"d41d8cd98f00b204e9800998ecf8427e";
    let mut data = vec![0xABu8];
    data.extend_from_slice(&scrambled(hash));
    data.push(0xCD);
    assert_eq!(
        parse_deobfuscated_md5(&data, 1),
        Ok(("d41d8cd98f00b204e9800998ecf8427e".to_string(), 33))
    );
    assert_eq!(parse_deobfuscated_md5(&data, 3), Err(unexpected_end(3)));
}
