use kindle_tool::{obfuscate_in_place, DecodeError, ErrorKind, MetaString, OtaV1, OtaV2};

fn unexpected_end(offset: usize) -> DecodeError {
    DecodeError { kind: ErrorKind::UnexpectedEnd, offset }
}

fn scrambled(plain: &[u8]) -> Vec<u8> {
    let mut stored = plain.to_vec();
    obfuscate_in_place(&mut stored);
    stored
}

const HASH: &[u8; 32] = b"0123456789abcdef0123456789abcdef";

fn ota_v1_bytes(source: u32, target: u32, device: u16, optional: u8, padding: u8) -> Vec<u8> {
    let mut out = scrambled(HASH);
    out.extend_from_slice(&source.to_le_bytes());
    out.extend_from_slice(&target.to_le_bytes());
    out.extend_from_slice(&device.to_le_bytes());
    out.push(optional);
    out.push(padding);
    out
}

fn meta_bytes(text: &[u8]) -> Vec<u8> {
    let mut out = (text.len() as u16).to_le_bytes().to_vec();
    out.extend_from_slice(&scrambled(text));
    out
}

fn ota_v2_bytes(
    source: u64,
    target: u64,
    devices: &[u16],
    critical: u8,
    padding: u8,
    metadata: &[&[u8]],
) -> Vec<u8> {
    let mut out = Vec::new();
    out.extend_from_slice(&source.to_le_bytes());
    out.extend_from_slice(&target.to_le_bytes());
    out.extend_from_slice(&(devices.len() as u16).to_le_bytes());
    for code in devices {
        out.extend_from_slice(&code.to_le_bytes());
    }
    out.push(critical);
    out.push(padding);
    out.extend_from_slice(&scrambled(HASH));
    out.extend_from_slice(&(metadata.len() as u16).to_le_bytes());
    for text in metadata {
        out.extend_from_slice(&meta_bytes(text));
    }
    out
}

#[test]
fn ota_v1_decodes_every_field() {
    let mut data = vec![0xEEu8; 4];
    data.extend_from_slice(&ota_v1_bytes(0x0102_0304, 0xA0B0_C0D0, 0x0E, 1, 0x13));
    data.push(0x55);
    let (record, next) = OtaV1::parse(&data, 4).unwrap();
    assert_eq!(record.md5_hash, "0123456789abcdef0123456789abcdef");
    assert_eq!(record.source_rev, 0x0102_0304);
    assert_eq!(record.target_rev, 0xA0B0_C0D0);
    assert_eq!(record.device_code, 0x0E);
    assert_eq!(record.optional, 1);
    assert_eq!(record.padding, 0x13);
    assert_eq!(next, 48);
}

#[test]
fn ota_v1_counters_are_little_endian() {
    let mut data = scrambled(HASH);
    data.extend_from_slice(&[0x01, 0x00, 0x00, 0x00]);
    data.extend_from_slice(&[0x00, 0x00, 0x00, 0x02]);
    data.extend_from_slice(&[0x01, 0x02]);
    data.extend_from_slice(&[0, 0]);
    let (record, next) = OtaV1::parse(&data, 0).unwrap();
    assert_eq!(record.source_rev, 1);
    assert_eq!(record.target_rev, 0x0200_0000);
    assert_eq!(record.device_code, 0x0201);
    assert_eq!(next, 44);
}

#[test]
fn ota_v1_cut_short_fails_at_the_first_incomplete_field() {
    let full = ota_v1_bytes(1, 2, 3, 4, 5);
    assert_eq!(full.len(), 44);
    let expected = [(0usize, 0usize), (31, 0), (32, 32), (35, 32), (36, 36), (39, 36), (40, 40),
        (41, 40), (42, 42), (43, 43)];
    for (len, offset) in expected {
        assert_eq!(OtaV1::parse(&full[..len], 0).unwrap_err(), unexpected_end(offset));
    }
    assert!(OtaV1::parse(&full, 0).is_ok());
    assert_eq!(OtaV1::parse(&full, 1).unwrap_err(), unexpected_end(1 + 43));
    assert_eq!(OtaV1::parse(&full, 50).unwrap_err(), unexpected_end(50));
}

#[test]
fn meta_string_has_a_little_endian_length() {
    // Length 3, then "abc" in stored form, at the very end of the stream.
    let data = [0x03u8, 0x00, 0x6C, 0x5C, 0x4C];
    let (text, next) = MetaString::parse(&data, 0).unwrap();
    assert_eq!(text.0, "abc");
    assert_eq!(next, 5);

    let mut data = vec![0x03u8, 0x00];
    data.extend_from_slice(&scrambled(b"abcdef"));
    let (text, next) = MetaString::parse(&data, 0).unwrap();
    assert_eq!(text.0, "abc");
    assert_eq!(next, 5);

    let mut long = vec![0x02u8, 0x01];
    long.extend_from_slice(&scrambled(&[b'x'; 0x0102]));
    let (text, next) = MetaString::parse(&long, 0).unwrap();
    assert_eq!(text.0.len(), 0x0102);
    assert_eq!(next, 2 + 0x0102);

    // With the bytes of the length the other way round, it is 0x0300 and the
    // stream is too short for the string.
    let mut other = vec![0x00u8, 0x03];
    other.extend_from_slice(&scrambled(b"abc"));
    assert_eq!(MetaString::parse(&other, 0).unwrap_err(), unexpected_end(2));
}

#[test]
fn meta_string_may_be_empty() {
    let data = [0x00u8, 0x00];
    let (text, next) = MetaString::parse(&data, 0).unwrap();
    assert_eq!(text.0, "");
    assert_eq!(next, 2);
}

#[test]
fn meta_string_cut_short_fails() {
    assert_eq!(MetaString::parse(&[0x00], 0).unwrap_err(), unexpected_end(0));
    assert_eq!(MetaString::parse(&[0x02, 0x00, 0x41], 0).unwrap_err(), unexpected_end(2));
    assert_eq!(MetaString::parse(&[0x00, 0x01, 0x41], 0).unwrap_err(), unexpected_end(2));
    assert_eq!(MetaString::parse(&[], 0).unwrap_err(), unexpected_end(0));
}

#[test]
fn meta_string_run_reads_all_or_fails_at_the_first_failure() {
    let mut data = meta_bytes(b"one");
    data.extend_from_slice(&meta_bytes(b""));
    data.extend_from_slice(&meta_bytes(b"three"));
    let (strings, next) = MetaString::parse_run(&data, 0, 3).unwrap();
    let texts: Vec<&str> = strings.iter().map(|s| s.0.as_str()).collect();
    assert_eq!(texts, vec!["one", "", "three"]);
    assert_eq!(next, data.len());

    let (strings, next) = MetaString::parse_run(&data, 0, 0).unwrap();
    assert!(strings.is_empty());
    assert_eq!(next, 0);

    // No string at all can be read from beyond the end.
    assert_eq!(
        MetaString::parse_run(&data, data.len() + 1, 0).unwrap_err(),
        unexpected_end(data.len() + 1)
    );
    let (strings, next) = MetaString::parse_run(&data, data.len(), 0).unwrap();
    assert!(strings.is_empty());
    assert_eq!(next, data.len());

    // A fourth string is asked for where the stream ends.
    assert_eq!(MetaString::parse_run(&data, 0, 4).unwrap_err(), unexpected_end(data.len()));
    // The third string is cut inside its text.
    let cut = &data[..data.len() - 1];
    assert_eq!(MetaString::parse_run(cut, 0, 3).unwrap_err(), unexpected_end(9));
}

#[test]
fn ota_v2_round_trip_reproduces_every_field() {
    let devices = [0x0201u16, 0x000E, 0x6F7B];
    let metadata: [&[u8]; 2] = [b"key=value", b"another line of metadata"];
    let mut data = vec![0xEEu8; 4];
    data.extend_from_slice(&ota_v2_bytes(
        0x0102_0304_0506_0708,
        0x1112_1314_1516_1718,
        &devices,
        3,
        0x9D,
        &metadata,
    ));
    let end = data.len();
    data.extend_from_slice(&[0xAA; 5]);

    let (record, next) = OtaV2::parse(&data, 4).unwrap();
    assert_eq!(record.source_rev, 0x0102_0304_0506_0708);
    assert_eq!(record.target_rev, 0x1112_1314_1516_1718);
    assert_eq!(record.num_devices, 3);
    assert_eq!(record.device_codes, vec![0x0201, 0x000E, 0x6F7B]);
    assert_eq!(record.critical, 3);
    assert_eq!(record.padding, 0x9D);
    assert_eq!(record.md5_hash, "0123456789abcdef0123456789abcdef");
    assert_eq!(record.num_metadata, 2);
    assert_eq!(record.metadata.len(), 2);
    assert_eq!(record.metadata[0].0, "key=value");
    assert_eq!(record.metadata[1].0, "another line of metadata");
    assert_eq!(next, end);
}

#[test]
fn ota_v2_round_trip_with_many_entries() {
    let devices: Vec<u16> = (0..300u16).map(|i| i.wrapping_mul(211)).collect();
    let texts: Vec<Vec<u8>> =
        (0..40usize).map(|i| format!("entry-{}={}", i, "x".repeat(i)).into_bytes()).collect();
    let metadata: Vec<&[u8]> = texts.iter().map(|t| t.as_slice()).collect();
    let data = ota_v2_bytes(7, 9, &devices, 0, 0, &metadata);
    let (record, next) = OtaV2::parse(&data, 0).unwrap();
    assert_eq!(record.device_codes, devices);
    assert_eq!(record.num_devices, 300);
    assert_eq!(record.num_metadata, 40);
    for (got, want) in record.metadata.iter().zip(texts.iter()) {
        assert_eq!(got.0.as_bytes(), want.as_slice());
    }
    assert_eq!(next, data.len());
}

#[test]
fn ota_v2_without_devices_or_metadata() {
    let data = ota_v2_bytes(1, 2, &[], 1, 0, &[]);
    assert_eq!(data.len(), 54);
    let (record, next) = OtaV2::parse(&data, 0).unwrap();
    assert_eq!(record.num_devices, 0);
    assert!(record.device_codes.is_empty());
    assert_eq!(record.critical, 1);
    assert_eq!(record.num_metadata, 0);
    assert!(record.metadata.is_empty());
    assert_eq!(next, 54);
}

#[test]
fn ota_v2_cut_short_fails_at_the_first_incomplete_field() {
    let metadata: [&[u8]; 1] = [b"abc"];
    let full = ota_v2_bytes(1, 2, &[10, 20], 0, 0, &metadata);
    // 8 + 8 + 2 + 4 devices bytes, then flag, padding, hash, count, string.
    assert_eq!(full.len(), 18 + 4 + 2 + 32 + 2 + 5);
    let expected = [
        (0usize, 0usize),
        (7, 0),
        (8, 8),
        (15, 8),
        (16, 16),
        (17, 16),
        (18, 18),
        (19, 18),
        (20, 20),
        (21, 20),
        (22, 22),
        (23, 23),
        (24, 24),
        (55, 24),
        (56, 56),
        (57, 56),
        (58, 58),
        (59, 58),
        (60, 60),
        (62, 60),
    ];
    for (len, offset) in expected {
        assert_eq!(OtaV2::parse(&full[..len], 0).unwrap_err(), unexpected_end(offset));
    }
    assert!(OtaV2::parse(&full, 0).is_ok());
}

#[test]
fn ota_v2_text_that_is_not_utf8_is_kept_with_replacements() {
    let metadata: [&[u8]; 1] = [&[b'o', b'k', 0x80, b'!']];
    let data = ota_v2_bytes(0, 0, &[], 0, 0, &metadata);
    let (record, _) = OtaV2::parse(&data, 0).unwrap();
    assert_eq!(record.metadata[0].0, "ok\u{FFFD}!");
}
