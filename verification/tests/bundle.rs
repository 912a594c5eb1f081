use kindle_tool::recovery::RECOVERY_BLOCK_LEN;
use kindle_tool::{
    obfuscate_in_place, DecodeError, ErrorKind, Magic, SignatureEnvelope, UpdateBundle,
    MAX_ENVELOPE_DEPTH,
};

fn scrambled(plain: &[u8]) -> Vec<u8> {
    let mut stored = plain.to_vec();
    obfuscate_in_place(&mut stored);
    stored
}

const HASH: &[u8; 32] = b"00112233445566778899aabbccddeeff";

/// A container of the first update layout: tag and 44 bytes.
fn ota_v1(tag: &[u8; 4], source: u32, target: u32, device: u16) -> Vec<u8> {
    let mut out = tag.to_vec();
    out.extend_from_slice(&scrambled(HASH));
    out.extend_from_slice(&source.to_le_bytes());
    out.extend_from_slice(&target.to_le_bytes());
    out.extend_from_slice(&device.to_le_bytes());
    out.extend_from_slice(&[1, 0]);
    out
}

/// A container of the second update layout without devices or metadata.
fn ota_v2(tag: &[u8; 4]) -> Vec<u8> {
    let mut out = tag.to_vec();
    out.extend_from_slice(&5u64.to_le_bytes());
    out.extend_from_slice(&6u64.to_le_bytes());
    out.extend_from_slice(&0u16.to_le_bytes());
    out.extend_from_slice(&[1, 0]);
    out.extend_from_slice(&scrambled(HASH));
    out.extend_from_slice(&0u16.to_le_bytes());
    out
}

fn recovery(tag: &[u8; 4]) -> Vec<u8> {
    let mut out = tag.to_vec();
    out.extend_from_slice(&vec![0u8; RECOVERY_BLOCK_LEN]);
    out
}

/// An envelope with `sig_len` signature bytes around `inner`.
fn envelope(cert: u32, sig_len: usize, inner: &[u8]) -> Vec<u8> {
    let mut out = b"SP01".to_vec();
    out.extend_from_slice(&cert.to_le_bytes());
    out.extend_from_slice(&[0xEE; 56]);
    out.extend((0..sig_len).map(|i| i as u8));
    out.extend_from_slice(inner);
    out
}

fn error(kind: ErrorKind, offset: usize) -> DecodeError {
    DecodeError { kind, offset }
}

#[test]
fn the_default_depth_limit() {
    assert_eq!(MAX_ENVELOPE_DEPTH, 16);
}

#[test]
fn every_known_tag_selects_its_variant() {
    let (b, end) = UpdateBundle::decode(&ota_v1(b"FC02", 1, 2, 3)).unwrap();
    assert!(matches!(b, UpdateBundle::OtaV1Fc02(_)));
    assert_eq!(end, 48);
    let (b, _) = UpdateBundle::decode(&ota_v1(b"FD03", 1, 2, 3)).unwrap();
    assert!(matches!(b, UpdateBundle::OtaV1Fd03(_)));
    let (b, end) = UpdateBundle::decode(&ota_v2(b"FC04")).unwrap();
    assert!(matches!(b, UpdateBundle::OtaV2Fc04(_)));
    assert_eq!(end, 58);
    let (b, _) = UpdateBundle::decode(&ota_v2(b"FD04")).unwrap();
    assert!(matches!(b, UpdateBundle::OtaV2Fd04(_)));
    let (b, _) = UpdateBundle::decode(&ota_v2(b"FL01")).unwrap();
    assert!(matches!(b, UpdateBundle::OtaV2Fl01(_)));
    let (b, end) = UpdateBundle::decode(&recovery(b"FB01")).unwrap();
    assert!(matches!(b, UpdateBundle::RecoveryV1Fb01(_)));
    assert_eq!(end, 4 + RECOVERY_BLOCK_LEN);
    let (b, _) = UpdateBundle::decode(&recovery(b"FB02")).unwrap();
    assert!(matches!(b, UpdateBundle::RecoveryV1Fb02(_)));
    let (b, end) = UpdateBundle::decode(&recovery(b"FB03")).unwrap();
    assert!(matches!(b, UpdateBundle::RecoveryV2Fb03(_)));
    assert_eq!(end, 4 + RECOVERY_BLOCK_LEN);
    let (b, _) = UpdateBundle::decode(&envelope(0, 128, &ota_v1(b"FC02", 1, 2, 3))).unwrap();
    assert!(matches!(b, UpdateBundle::Signed(_)));
}

#[test]
fn the_record_keeps_its_tag_for_display() {
    let cases: [(&[u8; 4], &str, &str); 5] = [
        (b"FC02", "FC02", "(OTA [ota])"),
        (b"FD03", "FD03", "(Versionless [vls])"),
        (b"FC04", "FC04", "(OTA [ota])"),
        (b"FD04", "FD04", "(Versionless [vls])"),
        (b"FL01", "FL01", "(Language [lang])"),
    ];
    for (tag, text, description) in cases {
        let data = if tag[3] == b'2' || tag[3] == b'3' { ota_v1(tag, 1, 2, 3) } else { ota_v2(tag) };
        let (bundle, _) = UpdateBundle::decode(&data).unwrap();
        assert_eq!(bundle.magic_str(), text);
        assert_eq!(bundle.magic().as_str(), text);
        assert_eq!(bundle.description(), description);
    }
    let cases: [(&[u8; 4], &str, &str); 3] = [
        (b"FB01", "FB01", "(Fullbin)"),
        (b"FB02", "FB02", "(Fullbin)"),
        (b"FB03", "FB03", "(Fullbin [OTA?, fwo?])"),
    ];
    for (tag, text, description) in cases {
        let (bundle, _) = UpdateBundle::decode(&recovery(tag)).unwrap();
        assert_eq!(bundle.magic_str(), text);
        assert_eq!(bundle.description(), description);
    }
    let (bundle, _) = UpdateBundle::decode(&envelope(1, 128, &ota_v2(b"FL01"))).unwrap();
    assert_eq!(bundle.magic_str(), "SP01");
    assert_eq!(bundle.description(), "(Signing Envelope)");
}

#[test]
fn magic_from_tag_knows_exactly_the_nine_tags() {
    assert_eq!(Magic::from_tag(b"SP01"), Some(Magic::Sp01));
    assert_eq!(Magic::from_tag(b"FC02"), Some(Magic::Fc02));
    assert_eq!(Magic::from_tag(b"FD03"), Some(Magic::Fd03));
    assert_eq!(Magic::from_tag(b"FC04"), Some(Magic::Fc04));
    assert_eq!(Magic::from_tag(b"FD04"), Some(Magic::Fd04));
    assert_eq!(Magic::from_tag(b"FL01"), Some(Magic::Fl01));
    assert_eq!(Magic::from_tag(b"FB01"), Some(Magic::Fb01));
    assert_eq!(Magic::from_tag(b"FB02"), Some(Magic::Fb02));
    assert_eq!(Magic::from_tag(b"FB03"), Some(Magic::Fb03));
    for tag in [b"ZZZZ", b"sp01", b"fc02", b"FC03", b"FD02", b"FL02", b"FB04", b"SP02", b"FC12",
        b"\0\0\0\0", b"FB0\0", b"GB01", b"FA01", b"FC01", b"FD01", b"FL04"]
    {
        assert_eq!(Magic::from_tag(tag), None);
    }
}

#[test]
fn dispatching_on_an_unknown_tag_fails_with_unknown_magic() {
    let mut data = b"ZZZZ".to_vec();
    data.extend_from_slice(&[0u8; 64]);
    assert_eq!(
        UpdateBundle::decode(&data).unwrap_err(),
        error(ErrorKind::UnknownMagic(*b"ZZZZ"), 0)
    );
    assert_eq!(
        UpdateBundle::decode(b"ZZZZ").unwrap_err(),
        error(ErrorKind::UnknownMagic(*b"ZZZZ"), 0)
    );
    // Tags are case-sensitive.
    let mut data = ota_v1(b"fc02", 1, 2, 3);
    assert_eq!(
        UpdateBundle::decode(&data).unwrap_err(),
        error(ErrorKind::UnknownMagic(*b"fc02"), 0)
    );
    // The tag is read where the decode starts.
    data.extend_from_slice(b"FC02");
    assert_eq!(
        UpdateBundle::parse(&data, 2, 4).unwrap_err(),
        error(ErrorKind::UnknownMagic([b'0', b'2', data[4], data[5]]), 2)
    );
}

#[test]
fn a_stream_without_a_whole_tag_ends_unexpectedly() {
    assert_eq!(UpdateBundle::decode(&[]).unwrap_err(), error(ErrorKind::UnexpectedEnd, 0));
    assert_eq!(UpdateBundle::decode(b"FC0").unwrap_err(), error(ErrorKind::UnexpectedEnd, 0));
    assert_eq!(UpdateBundle::decode(b"FC02").unwrap_err(), error(ErrorKind::UnexpectedEnd, 4));
    assert_eq!(
        UpdateBundle::decode(&ota_v1(b"FC02", 1, 2, 3)[..47]).unwrap_err(),
        error(ErrorKind::UnexpectedEnd, 47)
    );
    assert_eq!(
        UpdateBundle::decode(&recovery(b"FB01")[..5000]).unwrap_err(),
        error(ErrorKind::UnexpectedEnd, 4)
    );
}

#[test]
fn certificate_two_takes_256_signature_bytes() {
    let inner = ota_v1(b"FC02", 10, 20, 0x0E);
    let data = envelope(2, 256, &inner);
    let (bundle, end) = UpdateBundle::decode(&data).unwrap();
    assert_eq!(end, 4 + 4 + 56 + 256 + 48);
    let UpdateBundle::Signed(env) = bundle else { panic!("an envelope was decoded") };
    assert_eq!(env.cert_num, 2);
    assert_eq!(env.signature.len(), 256);
    assert_eq!(env.signature, (0..256usize).map(|i| i as u8).collect::<Vec<u8>>());
    let UpdateBundle::OtaV1Fc02(record) = *env.wrapped_bundle else {
        panic!("the inner container has the first update layout")
    };
    assert_eq!(record.source_rev, 10);
    assert_eq!(record.target_rev, 20);
    assert_eq!(record.device_code, 0x0E);
    assert_eq!(record.md5_hash, "00112233445566778899aabbccddeeff");

    // With only 128 signature bytes the stream ends inside the signature.
    let short = envelope(2, 128, &inner);
    assert_eq!(UpdateBundle::decode(&short).unwrap_err(), error(ErrorKind::UnexpectedEnd, 64));
    // With 255 signature bytes the inner tag is looked for one byte too late.
    let late = envelope(2, 255, &inner);
    assert_eq!(
        UpdateBundle::decode(&late).unwrap_err(),
        error(ErrorKind::UnknownMagic([b'C', b'0', b'2', late[323]]), 320)
    );
}

#[test]
fn other_certificates_take_128_signature_bytes() {
    let inner = ota_v1(b"FC02", 10, 20, 0x0E);
    for cert in [0u32, 1, 3, 0x0200, u32::MAX] {
        let data = envelope(cert, 128, &inner);
        let (bundle, end) = UpdateBundle::decode(&data).unwrap();
        assert_eq!(end, 4 + 4 + 56 + 128 + 48);
        let UpdateBundle::Signed(env) = bundle else { panic!("an envelope was decoded") };
        assert_eq!(env.cert_num, cert);
        assert_eq!(env.signature.len(), 128);
        assert_eq!(env.signature, (0..128usize).map(|i| i as u8).collect::<Vec<u8>>());
        assert!(matches!(*env.wrapped_bundle, UpdateBundle::OtaV1Fc02(_)));

        // With 256 signature bytes the inner tag is looked for inside the signature.
        let long = envelope(cert, 256, &inner);
        assert_eq!(
            UpdateBundle::decode(&long).unwrap_err(),
            error(ErrorKind::UnknownMagic([128, 129, 130, 131]), 4 + 4 + 56 + 128)
        );
    }
}

#[test]
fn certificate_names() {
    let inner = ota_v2(b"FC04");
    let expected = [
        (0u32, "pubdevkey01.pem (Developer)"),
        (1, "pubprodkey01.pem (Official 1K)"),
        (2, "pubprodkey02.pem (Official 2K)"),
        (3, "Unknown"),
        (u32::MAX, "Unknown"),
    ];
    for (cert, name) in expected {
        let sig_len = if cert == 2 { 256 } else { 128 };
        let data = envelope(cert, sig_len, &inner);
        let (env, _) = SignatureEnvelope::parse(&data, 4, 0).unwrap();
        assert_eq!(env.cert_name(), name);
    }
}

#[test]
fn an_envelope_cut_short_fails_where_the_reader_stood() {
    let data = envelope(2, 256, &ota_v1(b"FC02", 1, 2, 3));
    // Inside the certificate number.
    assert_eq!(
        UpdateBundle::decode(&data[..7]).unwrap_err(),
        error(ErrorKind::UnexpectedEnd, 4)
    );
    // Inside the reserved bytes, which are skipped by a seek.
    assert_eq!(
        UpdateBundle::decode(&data[..8]).unwrap_err(),
        error(ErrorKind::SeekOutOfRange, 8)
    );
    assert_eq!(
        UpdateBundle::decode(&data[..63]).unwrap_err(),
        error(ErrorKind::SeekOutOfRange, 8)
    );
    // Inside the signature.
    assert_eq!(
        UpdateBundle::decode(&data[..64]).unwrap_err(),
        error(ErrorKind::UnexpectedEnd, 64)
    );
    assert_eq!(
        UpdateBundle::decode(&data[..64 + 255]).unwrap_err(),
        error(ErrorKind::UnexpectedEnd, 64)
    );
    // At the inner tag, and inside the inner record.
    assert_eq!(
        UpdateBundle::decode(&data[..64 + 256]).unwrap_err(),
        error(ErrorKind::UnexpectedEnd, 320)
    );
    assert_eq!(
        UpdateBundle::decode(&data[..64 + 256 + 4 + 33]).unwrap_err(),
        error(ErrorKind::UnexpectedEnd, 324 + 32)
    );
    assert!(UpdateBundle::decode(&data).is_ok());
}

fn nested(layers: usize) -> Vec<u8> {
    let mut data = ota_v1(b"FD03", 7, 8, 9);
    for layer in 0..layers {
        let cert = (layer % 3) as u32;
        data = envelope(cert, if cert == 2 { 256 } else { 128 }, &data);
    }
    data
}

fn depth_of(bundle: &UpdateBundle) -> usize {
    match bundle {
        UpdateBundle::Signed(env) => 1 + depth_of(&env.wrapped_bundle),
        _ => 0,
    }
}

#[test]
fn envelopes_nest() {
    let data = nested(3);
    let (bundle, end) = UpdateBundle::decode(&data).unwrap();
    assert_eq!(end, data.len());
    assert_eq!(depth_of(&bundle), 3);
    let UpdateBundle::Signed(outer) = bundle else { panic!("an envelope was decoded") };
    assert_eq!(outer.cert_num, 2);
    let UpdateBundle::Signed(middle) = *outer.wrapped_bundle else { panic!("an envelope inside") };
    assert_eq!(middle.cert_num, 1);
    let UpdateBundle::Signed(inner) = *middle.wrapped_bundle else { panic!("an envelope inside") };
    assert_eq!(inner.cert_num, 0);
    let UpdateBundle::OtaV1Fd03(record) = *inner.wrapped_bundle else {
        panic!("the innermost container has the first update layout")
    };
    assert_eq!(record.source_rev, 7);
}

#[test]
fn nesting_up_to_the_limit_is_followed() {
    let data = nested(16);
    let (bundle, end) = UpdateBundle::decode(&data).unwrap();
    assert_eq!(depth_of(&bundle), 16);
    assert_eq!(end, data.len());
}

#[test]
fn nesting_beyond_the_limit_fails_at_the_tag_that_exceeds_it() {
    let data = nested(17);
    // Sixteen envelopes are opened; the tag of the seventeenth is refused.
    let seventeenth = data.len() - nested(1).len();
    assert_eq!(
        UpdateBundle::decode(&data).unwrap_err(),
        error(ErrorKind::RecursionLimitExceeded, seventeenth)
    );
    assert!(UpdateBundle::parse(&data, 0, 17).is_ok());

    let one = nested(1);
    assert_eq!(
        UpdateBundle::parse(&one, 0, 0).unwrap_err(),
        error(ErrorKind::RecursionLimitExceeded, 0)
    );
    assert!(UpdateBundle::parse(&one, 0, 1).is_ok());
    let two = nested(2);
    assert_eq!(
        UpdateBundle::parse(&two, 0, 1).unwrap_err(),
        error(ErrorKind::RecursionLimitExceeded, 4 + 4 + 56 + 128)
    );
    // A container that is no envelope needs no depth at all.
    assert!(UpdateBundle::parse(&ota_v2(b"FC04"), 0, 0).is_ok());
}

#[test]
fn the_envelope_decoder_starts_after_the_tag() {
    let data = envelope(1, 128, &ota_v2(b"FD04"));
    let (env, end) = SignatureEnvelope::parse(&data, 4, 0).unwrap();
    assert_eq!(env.cert_num, 1);
    assert_eq!(env.signature.len(), 128);
    assert!(matches!(*env.wrapped_bundle, UpdateBundle::OtaV2Fd04(_)));
    assert_eq!(end, data.len());

    let two = envelope(0, 128, &data);
    assert_eq!(
        SignatureEnvelope::parse(&two, 4, 0).unwrap_err(),
        error(ErrorKind::RecursionLimitExceeded, 192)
    );
    assert!(SignatureEnvelope::parse(&two, 4, 1).is_ok());
}

#[test]
fn what_follows_a_header_does_not_change_what_is_decoded() {
    let alone = envelope(2, 256, &ota_v1(b"FC02", 11, 22, 33));
    let (first, end) = UpdateBundle::decode(&alone).unwrap();
    for extra in [1usize, 4, 1000] {
        let mut longer = alone.clone();
        longer.extend((0..extra).map(|i| (i * 13) as u8));
        let (second, same_end) = UpdateBundle::decode(&longer).unwrap();
        assert_eq!(same_end, end);
        assert_eq!(format!("{:?}", second), format!("{:?}", first));
    }
    // An unknown tag stays unknown whatever follows it.
    let mut unknown = b"FC03".to_vec();
    let failure = UpdateBundle::decode(&unknown).unwrap_err();
    unknown.extend_from_slice(&[0u8; 100]);
    assert_eq!(UpdateBundle::decode(&unknown).unwrap_err(), failure);
}

#[test]
fn the_text_of_a_tag_spells_its_bytes() {
    let tags: [&[u8; 4]; 9] =
        [b"SP01", b"FC02", b"FD03", b"FC04", b"FD04", b"FL01", b"FB01", b"FB02", b"FB03"];
    for tag in tags {
        let magic = Magic::from_tag(tag).unwrap();
        assert_eq!(magic.as_str().as_bytes(), &tag[..]);
    }
}

#[test]
fn descriptions_of_the_tags() {
    assert_eq!(Magic::Sp01.description(), "(Signing Envelope)");
    assert_eq!(Magic::Fc02.description(), "(OTA [ota])");
    assert_eq!(Magic::Fd03.description(), "(Versionless [vls])");
    assert_eq!(Magic::Fc04.description(), "(OTA [ota])");
    assert_eq!(Magic::Fd04.description(), "(Versionless [vls])");
    assert_eq!(Magic::Fl01.description(), "(Language [lang])");
    assert_eq!(Magic::Fb01.description(), "(Fullbin)");
    assert_eq!(Magic::Fb02.description(), "(Fullbin)");
    assert_eq!(Magic::Fb03.description(), "(Fullbin [OTA?, fwo?])");
}
