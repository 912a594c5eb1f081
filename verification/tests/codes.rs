use kindle_tool::{Device, Platform};

#[test]
fn device_codes_resolve_to_their_models() {
    assert_eq!(Device::from_repr(0x01), Some(Device::Kindle1));
    assert_eq!(Device::from_repr(0x0E), Some(Device::Kindle4NonTouch));
    assert_eq!(Device::from_repr(0x201), Some(Device::KindlePaperWhite3WiFi));
    assert_eq!(Device::from_repr(0x6F7B), Some(Device::KindlePW3Unknown_TTT));
    assert_eq!(Device::from_repr(0x11D7), Some(Device::KindleColorSoftUnknown_4EP));
    assert_eq!(Device::from_repr(0), Some(Device::Unknown));
}

#[test]
fn device_codes_without_a_model_resolve_to_nothing() {
    assert_eq!(Device::from_repr(0x14), None);
    assert_eq!(Device::from_repr(0xFFFF), None);
    assert_eq!(Device::from_repr(0x1_000E), None);
    assert_eq!(Device::from_repr(0x14).unwrap_or_default(), Device::Unknown);
    assert_eq!(Device::default(), Device::Unknown);
}

#[test]
fn device_labels() {
    assert_eq!(Device::Kindle1.name(), "Kindle 1");
    assert_eq!(Device::Kindle4NonTouch.name(), "Silver Kindle 4 Non-Touch (2011)");
    assert_eq!(Device::ValidKindleUnknown_0x07.name(), "Unknown Kindle (0x07)");
    assert_eq!(
        Device::KindlePaperWhite3WhiteWiFi3GInternationalBis.name(),
        "White Kindle PaperWhite 3 (2016) WiFi+3G International (Bis)"
    );
    assert_eq!(Device::Unknown.name(), "Unknown");
    assert_eq!(Device::KindleBasic.to_string(), "Kindle Basic (2014)".to_string());
}

#[test]
fn platform_codes_resolve_to_their_platforms() {
    assert_eq!(Platform::from_repr(0x00), Some(Platform::PlatUnspecified));
    assert_eq!(Platform::from_repr(0x0A), Some(Platform::Zelda));
    assert_eq!(Platform::from_repr(0x0E), Some(Platform::Bellatrix4));
    assert_eq!(Platform::from_repr(0x0F), Some(Platform::Unknown));
    assert_eq!(Platform::from_repr(0x10), None);
    assert_eq!(Platform::from_repr(0x10).unwrap_or_default(), Platform::Unknown);
    assert_eq!(Platform::default(), Platform::Unknown);
}

#[test]
fn platform_labels() {
    assert_eq!(Platform::PlatUnspecified.name(), "Unspecified");
    assert_eq!(Platform::MarioDeprecated.name(), "Mario (Deprecated)");
    assert_eq!(Platform::Yoshime.name(), "Yoshime (Yoshime3)");
    assert_eq!(Platform::Zelda.name(), "Zelda");
    assert_eq!(Platform::Unknown.name(), "Unknown");
    assert_eq!(Platform::Rex.to_string(), "Rex".to_string());
}

#[test]
fn the_device_dictionary_has_185_entries() {
    let known = (0..=0xFFFFusize).filter(|&code| Device::from_repr(code).is_some()).count();
    assert_eq!(known, 185);
    assert!((0x1_0000..0x2_0000usize).all(|code| Device::from_repr(code).is_none()));
    assert_eq!(Device::from_repr(usize::MAX), None);
}

#[test]
fn the_platform_dictionary_has_16_entries() {
    let known = (0..=0xFFFFusize).filter(|&code| Platform::from_repr(code).is_some()).count();
    assert_eq!(known, 16);
    assert!((0..16usize).all(|code| Platform::from_repr(code).is_some()));
    assert_eq!(Platform::from_repr(usize::MAX), None);
}

#[test]
fn device_labels_across_the_dictionary() {
    let expected: [(usize, &str); 16] = [
        (0x02, "Kindle 2 US"),
        (0x06, "Kindle 3 WiFi+3G"),
        (0x07, "Unknown Kindle (0x07)"),
        (0x0A, "Kindle 3 WiFi+3G Europe"),
        (0x23, "Black Kindle 4 Non-Touch (2012)"),
        (0xD4, "Kindle PaperWhite 2 (2013) WiFi"),
        (0x13, "Kindle Voyage WiFi"),
        (0xC6, "Kindle Basic (2014)"),
        (0x20C, "Kindle Oasis WiFi"),
        (0x2E6, "Kindle Oasis 2 (2017) WiFi+3G (32GB) (Variant 0P6)"),
        (0x4D8, "Twilight Blue Kindle PaperWhite 4 (2018) WiFi (32GB)"),
        (0x3AB, "Kindle Basic 3 (2019) Kids Edition"),
        (0x690, "Kindle PaperWhite 5 Signature Edition (2021)"),
        (0x8F2, "Kindle Scribe (Unknown Variant 27J)"),
        (0x2909, "Kindle Basic 5 (2024) (Unknown Variant A89)"),
        (0x102E, "Kindle Scribe 2 (2024) (Unknown Variant 41E)"),
    ];
    for (code, label) in expected {
        assert_eq!(Device::from_repr(code).map(|d| d.name()), Some(label));
    }
}

#[test]
fn every_known_code_has_a_label_of_its_own_kind() {
    for code in 0..=0xFFFFusize {
        if let Some(device) = Device::from_repr(code) {
            assert!(!device.name().is_empty());
            assert_eq!(device.to_string(), device.name());
        }
    }
    let all: [&str; 16] = [
        "Unspecified",
        "Mario (Deprecated)",
        "Luigi",
        "Banjo",
        "Yoshi",
        "Yoshime (Prototype)",
        "Yoshime (Yoshime3)",
        "Wario",
        "Duet",
        "Heisenberg",
        "Zelda",
        "Rex",
        "Bellatrix",
        "Bellatrix3",
        "Bellatrix4",
        "Unknown",
    ];
    for (code, label) in all.iter().enumerate() {
        assert_eq!(Platform::from_repr(code).unwrap().name(), *label);
    }
}
