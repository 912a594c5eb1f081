//! The dictionaries that give device and platform codes their names.
//!
//! A container stores devices and platforms as bare numbers. The decoder
//! carries those numbers through unchanged and uses the dictionaries here only
//! to attach a descriptive label; a number that names nothing resolves to the
//! `Unknown` entry and is never an error.

use vstd::prelude::*;

verus! {

/// A device model, identified in containers by a 16-bit code.
#[allow(non_camel_case_types)]
#[derive(Debug, Clone, Copy, PartialEq, Eq, Structural)]
pub enum Device {
    Kindle1,
    Kindle2US,
    Kindle2International,
    KindleDXUS,
    KindleDXInternational,
    ValidKindleUnknown_0x07,
    Kindle3WiFi3G,
    Kindle3WiFi,
    KindleDXGraphite,
    Kindle3WiFi3GEurope,
    ValidKindleUnknown_0x0B,
    ValidKindleUnknown_0x0C,
    ValidKindleUnknown_0x0D,
    Kindle4NonTouch,
    Kindle5TouchWiFi3G,
    Kindle5TouchWiFi3GEurope,
    Kindle5TouchWiFi,
    Kindle5TouchUnknown,
    KindlePaperWhiteWiFi3G,
    KindlePaperWhiteWiFi3GCanada,
    KindlePaperWhiteWiFi3GEurope,
    KindlePaperWhiteWiFi3GJapan,
    KindlePaperWhiteWiFi3GBrazil,
    Kindle4NonTouchBlack,
    KindlePaperWhiteWiFi,
    KindlePaperWhite2WiFiJapan,
    KindlePaperWhite2WiFi,
    KindlePaperWhite2WiFi3G,
    KindlePaperWhite2WiFi3GCanada,
    KindlePaperWhite2WiFi3GEurope,
    KindlePaperWhite2WiFi3GRussia,
    KindlePaperWhite2WiFi3GJapan,
    KindlePaperWhite2WiFi4GBInternational,
    KindlePaperWhite2WiFi3G4GBCanada,
    KindlePaperWhite2WiFi3G4GBEurope,
    KindlePaperWhite2WiFi3G4GBBrazil,
    KindlePaperWhite2WiFi3G4GB,
    KindlePaperWhite2Unknown_0xF4,
    KindlePaperWhite2Unknown_0xF9,
    KindleVoyageWiFi,
    KindleVoyageWiFi3G,
    KindleVoyageWiFi3GJapan,
    KindleVoyageWiFi3G_0x4F,
    KindleVoyageWiFi3GMexico,
    KindleVoyageWiFi3GEurope,
    KindleBasic,
    ValidKindleUnknown_0x99,
    KindleBasicKiwi,
    ValidKindleUnknown_0x16,
    ValidKindleUnknown_0x21,
    KindlePaperWhite3WiFi,
    KindlePaperWhite3WiFi3G,
    KindlePaperWhite3WiFi3GMexico,
    KindlePaperWhite3WiFi3GEurope,
    KindlePaperWhite3WiFi3GCanada,
    KindlePaperWhite3WiFi3GJapan,
    KindlePaperWhite3WhiteWiFi,
    KindlePaperWhite3WhiteWiFi3GJapan,
    KindlePW3WhiteUnknown_0KD,
    KindlePaperWhite3WhiteWiFi3GInternational,
    KindlePaperWhite3WhiteWiFi3GInternationalBis,
    KindlePW3WhiteUnknown_0KG,
    KindlePaperWhite3BlackWiFi32GBJapan,
    KindlePaperWhite3WhiteWiFi32GBJapan,
    KindlePW3Unknown_TTT,
    KindleOasisWiFi,
    KindleOasisWiFi3G,
    KindleOasisWiFi3GInternational,
    KindleOasisUnknown_0GS,
    KindleOasisWiFi3GChina,
    KindleOasisWiFi3GEurope,
    KindleBasic2Unknown_0DU,
    KindleBasic2,
    KindleBasic2White,
    KindleOasis2Unknown_0LM,
    KindleOasis2Unknown_0LN,
    KindleOasis2Unknown_0LP,
    KindleOasis2Unknown_0LQ,
    KindleOasis2WiFi32GBChampagne,
    KindleOasis2Unknown_0P2,
    KindleOasis2Unknown_0P6,
    KindleOasis2Unknown_0P7,
    KindleOasis2WiFi8GB,
    KindleOasis2WiFi3G32GB,
    KindleOasis2WiFi3G32GBEurope,
    KindleOasis2Unknown_0S3,
    KindleOasis2Unknown_0S4,
    KindleOasis2Unknown_0S7,
    KindleOasis2WiFi32GB,
    KindlePaperWhite4WiFi8GB,
    KindlePaperWhite4WiFi4G32GB,
    KindlePaperWhite4WiFi4G32GBEurope,
    KindlePaperWhite4WiFi4G32GBJapan,
    KindlePaperWhite4Unknown_0T4,
    KindlePaperWhite4Unknown_0T5,
    KindlePaperWhite4WiFi32GB,
    KindlePaperWhite4Unknown_0T7,
    KindlePaperWhite4Unknown_0TJ,
    KindlePaperWhite4Unknown_0TK,
    KindlePaperWhite4Unknown_0TL,
    KindlePaperWhite4Unknown_0TM,
    KindlePaperWhite4Unknown_0TN,
    KindlePaperWhite4WiFi8GBIndia,
    KindlePaperWhite4WiFi32GBIndia,
    KindlePaperWhite4WiFi32GBBlue,
    KindlePaperWhite4WiFi32GBPlum,
    KindlePaperWhite4WiFi32GBSage,
    KindlePaperWhite4WiFi8GBBlue,
    KindlePaperWhite4WiFi8GBPlum,
    KindlePaperWhite4WiFi8GBSage,
    KindlePW4Unknown_0PL,
    KindleBasic3,
    KindleBasic3White8GB,
    KindleBasic3Unknown_0WG,
    KindleBasic3White,
    KindleBasic3Unknown_0WJ,
    KindleBasic3KidsEdition,
    KindleOasis3WiFi32GBChampagne,
    KindleOasis3WiFi4G32GBJapan,
    KindleOasis3WiFi4G32GBIndia,
    KindleOasis3WiFi4G32GB,
    KindleOasis3WiFi32GB,
    KindleOasis3WiFi8GB,
    KindlePaperWhite5SignatureEdition,
    KindlePaperWhite5Unknown_1Q0,
    KindlePaperWhite5,
    KindlePaperWhite5Unknown_1VD,
    KindlePaperWhite5SE_219,
    KindlePaperWhite5_21A,
    KindlePaperWhite5SE_2BH,
    KindlePaperWhite5Unknown_2BJ,
    KindlePaperWhite5_2DK,
    KindleBasic4Unknown_22D,
    KindleBasic4Unknown_25T,
    KindleBasic4Unknown_23A,
    KindleBasic4_2AQ,
    KindleBasic4_2AP,
    KindleBasic4Unknown_1XH,
    KindleBasic4Unknown_22C,
    KindleScribeUnknown_27J,
    KindleScribeUnknown_2BL,
    KindleScribeUnknown_263,
    KindleScribe16GB_227,
    KindleScribeUnknown_2BM,
    KindleScribe_23L,
    KindleScribe64GB_23M,
    KindleScribeUnknown_270,
    KindleBasic5Unknown_3L5,
    KindleBasic5Unknown_3L6,
    KindleBasic5Unknown_3L4,
    KindleBasic5Unknown_3L3,
    KindleBasic5Unknown_A89,
    KindleBasic5Unknown_3L2,
    KindleBasic5Unknown_3KM,
    KindlePaperWhite6Unknown_349,
    KindlePaperWhite6Unknown_346,
    KindlePaperWhite6Unknown_33X,
    KindlePaperWhite6Unknown_33W,
    KindlePaperWhite6Unknown_3HA,
    KindlePaperWhite6Unknown_3H5,
    KindlePaperWhite6Unknown_3H3,
    KindlePaperWhite6Unknown_3H8,
    KindlePaperWhite6Unknown_3J5,
    KindlePaperWhite6Unknown_3JS,
    KindleScribe2Unknown_3V0,
    KindleScribe2Unknown_3V1,
    KindleScribe2Unknown_3X5,
    KindleScribe2Unknown_3UV,
    KindleScribe2Unknown_3X4,
    KindleScribe2Unknown_3X3,
    KindleScribe2Unknown_41E,
    KindleScribe2Unknown_41D,
    KindleColorSoftUnknown_3H9,
    KindleColorSoftUnknown_3H4,
    KindleColorSoftUnknown_3HB,
    KindleColorSoftUnknown_3H6,
    KindleColorSoftUnknown_3H2,
    KindleColorSoftUnknown_34X,
    KindleColorSoftUnknown_3H7,
    KindleColorSoftUnknown_3JT,
    KindleColorSoftUnknown_3J6,
    KindleColorSoftUnknown_456,
    KindleColorSoftUnknown_455,
    KindleColorSoftUnknown_4EP,
    Unknown,
}

impl Device {
    /// The device model that the numeric code `code` stands for, if any.
    pub open spec fn with_code(code: int) -> Option<Device> {
        if code == 0x01 {
            Some(Device::Kindle1)
        } else if code == 0x02 {
            Some(Device::Kindle2US)
        } else if code == 0x03 {
            Some(Device::Kindle2International)
        } else if code == 0x04 {
            Some(Device::KindleDXUS)
        } else if code == 0x05 {
            Some(Device::KindleDXInternational)
        } else if code == 0x07 {
            Some(Device::ValidKindleUnknown_0x07)
        } else if code == 0x06 {
            Some(Device::Kindle3WiFi3G)
        } else if code == 0x08 {
            Some(Device::Kindle3WiFi)
        } else if code == 0x09 {
            Some(Device::KindleDXGraphite)
        } else if code == 0x0A {
            Some(Device::Kindle3WiFi3GEurope)
        } else if code == 0x0B {
            Some(Device::ValidKindleUnknown_0x0B)
        } else if code == 0x0C {
            Some(Device::ValidKindleUnknown_0x0C)
        } else if code == 0x0D {
            Some(Device::ValidKindleUnknown_0x0D)
        } else if code == 0x0E {
            Some(Device::Kindle4NonTouch)
        } else if code == 0x0F {
            Some(Device::Kindle5TouchWiFi3G)
        } else if code == 0x10 {
            Some(Device::Kindle5TouchWiFi3GEurope)
        } else if code == 0x11 {
            Some(Device::Kindle5TouchWiFi)
        } else if code == 0x12 {
            Some(Device::Kindle5TouchUnknown)
        } else if code == 0x1B {
            Some(Device::KindlePaperWhiteWiFi3G)
        } else if code == 0x1C {
            Some(Device::KindlePaperWhiteWiFi3GCanada)
        } else if code == 0x1D {
            Some(Device::KindlePaperWhiteWiFi3GEurope)
        } else if code == 0x1F {
            Some(Device::KindlePaperWhiteWiFi3GJapan)
        } else if code == 0x20 {
            Some(Device::KindlePaperWhiteWiFi3GBrazil)
        } else if code == 0x23 {
            Some(Device::Kindle4NonTouchBlack)
        } else if code == 0x24 {
            Some(Device::KindlePaperWhiteWiFi)
        } else if code == 0x5A {
            Some(Device::KindlePaperWhite2WiFiJapan)
        } else if code == 0xD4 {
            Some(Device::KindlePaperWhite2WiFi)
        } else if code == 0xD5 {
            Some(Device::KindlePaperWhite2WiFi3G)
        } else if code == 0xD6 {
            Some(Device::KindlePaperWhite2WiFi3GCanada)
        } else if code == 0xD7 {
            Some(Device::KindlePaperWhite2WiFi3GEurope)
        } else if code == 0xD8 {
            Some(Device::KindlePaperWhite2WiFi3GRussia)
        } else if code == 0xF2 {
            Some(Device::KindlePaperWhite2WiFi3GJapan)
        } else if code == 0x17 {
            Some(Device::KindlePaperWhite2WiFi4GBInternational)
        } else if code == 0x5F {
            Some(Device::KindlePaperWhite2WiFi3G4GBCanada)
        } else if code == 0x60 {
            Some(Device::KindlePaperWhite2WiFi3G4GBEurope)
        } else if code == 0x61 {
            Some(Device::KindlePaperWhite2WiFi3G4GBBrazil)
        } else if code == 0x62 {
            Some(Device::KindlePaperWhite2WiFi3G4GB)
        } else if code == 0xF4 {
            Some(Device::KindlePaperWhite2Unknown_0xF4)
        } else if code == 0xF9 {
            Some(Device::KindlePaperWhite2Unknown_0xF9)
        } else if code == 0x13 {
            Some(Device::KindleVoyageWiFi)
        } else if code == 0x54 {
            Some(Device::KindleVoyageWiFi3G)
        } else if code == 0x2A {
            Some(Device::KindleVoyageWiFi3GJapan)
        } else if code == 0x4F {
            Some(Device::KindleVoyageWiFi3G_0x4F)
        } else if code == 0x52 {
            Some(Device::KindleVoyageWiFi3GMexico)
        } else if code == 0x53 {
            Some(Device::KindleVoyageWiFi3GEurope)
        } else if code == 0xC6 {
            Some(Device::KindleBasic)
        } else if code == 0x99 {
            Some(Device::ValidKindleUnknown_0x99)
        } else if code == 0xDD {
            Some(Device::KindleBasicKiwi)
        } else if code == 0x16 {
            Some(Device::ValidKindleUnknown_0x16)
        } else if code == 0x21 {
            Some(Device::ValidKindleUnknown_0x21)
        } else if code == 0x201 {
            Some(Device::KindlePaperWhite3WiFi)
        } else if code == 0x202 {
            Some(Device::KindlePaperWhite3WiFi3G)
        } else if code == 0x204 {
            Some(Device::KindlePaperWhite3WiFi3GMexico)
        } else if code == 0x205 {
            Some(Device::KindlePaperWhite3WiFi3GEurope)
        } else if code == 0x206 {
            Some(Device::KindlePaperWhite3WiFi3GCanada)
        } else if code == 0x207 {
            Some(Device::KindlePaperWhite3WiFi3GJapan)
        } else if code == 0x26B {
            Some(Device::KindlePaperWhite3WhiteWiFi)
        } else if code == 0x26C {
            Some(Device::KindlePaperWhite3WhiteWiFi3GJapan)
        } else if code == 0x26D {
            Some(Device::KindlePW3WhiteUnknown_0KD)
        } else if code == 0x26E {
            Some(Device::KindlePaperWhite3WhiteWiFi3GInternational)
        } else if code == 0x26F {
            Some(Device::KindlePaperWhite3WhiteWiFi3GInternationalBis)
        } else if code == 0x270 {
            Some(Device::KindlePW3WhiteUnknown_0KG)
        } else if code == 0x293 {
            Some(Device::KindlePaperWhite3BlackWiFi32GBJapan)
        } else if code == 0x294 {
            Some(Device::KindlePaperWhite3WhiteWiFi32GBJapan)
        } else if code == 0x6F7B {
            Some(Device::KindlePW3Unknown_TTT)
        } else if code == 0x20C {
            Some(Device::KindleOasisWiFi)
        } else if code == 0x20D {
            Some(Device::KindleOasisWiFi3G)
        } else if code == 0x219 {
            Some(Device::KindleOasisWiFi3GInternational)
        } else if code == 0x21A {
            Some(Device::KindleOasisUnknown_0GS)
        } else if code == 0x21B {
            Some(Device::KindleOasisWiFi3GChina)
        } else if code == 0x21C {
            Some(Device::KindleOasisWiFi3GEurope)
        } else if code == 0x1BC {
            Some(Device::KindleBasic2Unknown_0DU)
        } else if code == 0x269 {
            Some(Device::KindleBasic2)
        } else if code == 0x26A {
            Some(Device::KindleBasic2White)
        } else if code == 0x295 {
            Some(Device::KindleOasis2Unknown_0LM)
        } else if code == 0x296 {
            Some(Device::KindleOasis2Unknown_0LN)
        } else if code == 0x297 {
            Some(Device::KindleOasis2Unknown_0LP)
        } else if code == 0x298 {
            Some(Device::KindleOasis2Unknown_0LQ)
        } else if code == 0x2E1 {
            Some(Device::KindleOasis2WiFi32GBChampagne)
        } else if code == 0x2E2 {
            Some(Device::KindleOasis2Unknown_0P2)
        } else if code == 0x2E6 {
            Some(Device::KindleOasis2Unknown_0P6)
        } else if code == 0x2E7 {
            Some(Device::KindleOasis2Unknown_0P7)
        } else if code == 0x2E8 {
            Some(Device::KindleOasis2WiFi8GB)
        } else if code == 0x341 {
            Some(Device::KindleOasis2WiFi3G32GB)
        } else if code == 0x342 {
            Some(Device::KindleOasis2WiFi3G32GBEurope)
        } else if code == 0x343 {
            Some(Device::KindleOasis2Unknown_0S3)
        } else if code == 0x344 {
            Some(Device::KindleOasis2Unknown_0S4)
        } else if code == 0x347 {
            Some(Device::KindleOasis2Unknown_0S7)
        } else if code == 0x34A {
            Some(Device::KindleOasis2WiFi32GB)
        } else if code == 0x2F7 {
            Some(Device::KindlePaperWhite4WiFi8GB)
        } else if code == 0x361 {
            Some(Device::KindlePaperWhite4WiFi4G32GB)
        } else if code == 0x362 {
            Some(Device::KindlePaperWhite4WiFi4G32GBEurope)
        } else if code == 0x363 {
            Some(Device::KindlePaperWhite4WiFi4G32GBJapan)
        } else if code == 0x364 {
            Some(Device::KindlePaperWhite4Unknown_0T4)
        } else if code == 0x365 {
            Some(Device::KindlePaperWhite4Unknown_0T5)
        } else if code == 0x366 {
            Some(Device::KindlePaperWhite4WiFi32GB)
        } else if code == 0x367 {
            Some(Device::KindlePaperWhite4Unknown_0T7)
        } else if code == 0x372 {
            Some(Device::KindlePaperWhite4Unknown_0TJ)
        } else if code == 0x373 {
            Some(Device::KindlePaperWhite4Unknown_0TK)
        } else if code == 0x374 {
            Some(Device::KindlePaperWhite4Unknown_0TL)
        } else if code == 0x375 {
            Some(Device::KindlePaperWhite4Unknown_0TM)
        } else if code == 0x376 {
            Some(Device::KindlePaperWhite4Unknown_0TN)
        } else if code == 0x402 {
            Some(Device::KindlePaperWhite4WiFi8GBIndia)
        } else if code == 0x403 {
            Some(Device::KindlePaperWhite4WiFi32GBIndia)
        } else if code == 0x4D8 {
            Some(Device::KindlePaperWhite4WiFi32GBBlue)
        } else if code == 0x4D9 {
            Some(Device::KindlePaperWhite4WiFi32GBPlum)
        } else if code == 0x4DA {
            Some(Device::KindlePaperWhite4WiFi32GBSage)
        } else if code == 0x4DB {
            Some(Device::KindlePaperWhite4WiFi8GBBlue)
        } else if code == 0x4DC {
            Some(Device::KindlePaperWhite4WiFi8GBPlum)
        } else if code == 0x4DD {
            Some(Device::KindlePaperWhite4WiFi8GBSage)
        } else if code == 0x2F4 {
            Some(Device::KindlePW4Unknown_0PL)
        } else if code == 0x414 {
            Some(Device::KindleBasic3)
        } else if code == 0x3CF {
            Some(Device::KindleBasic3White8GB)
        } else if code == 0x3D0 {
            Some(Device::KindleBasic3Unknown_0WG)
        } else if code == 0x3D1 {
            Some(Device::KindleBasic3White)
        } else if code == 0x3D2 {
            Some(Device::KindleBasic3Unknown_0WJ)
        } else if code == 0x3AB {
            Some(Device::KindleBasic3KidsEdition)
        } else if code == 0x434 {
            Some(Device::KindleOasis3WiFi32GBChampagne)
        } else if code == 0x3D8 {
            Some(Device::KindleOasis3WiFi4G32GBJapan)
        } else if code == 0x3D7 {
            Some(Device::KindleOasis3WiFi4G32GBIndia)
        } else if code == 0x3D6 {
            Some(Device::KindleOasis3WiFi4G32GB)
        } else if code == 0x3D5 {
            Some(Device::KindleOasis3WiFi32GB)
        } else if code == 0x3D4 {
            Some(Device::KindleOasis3WiFi8GB)
        } else if code == 0x690 {
            Some(Device::KindlePaperWhite5SignatureEdition)
        } else if code == 0x700 {
            Some(Device::KindlePaperWhite5Unknown_1Q0)
        } else if code == 0x6FF {
            Some(Device::KindlePaperWhite5)
        } else if code == 0x7AD {
            Some(Device::KindlePaperWhite5Unknown_1VD)
        } else if code == 0x829 {
            Some(Device::KindlePaperWhite5SE_219)
        } else if code == 0x82A {
            Some(Device::KindlePaperWhite5_21A)
        } else if code == 0x971 {
            Some(Device::KindlePaperWhite5SE_2BH)
        } else if code == 0x972 {
            Some(Device::KindlePaperWhite5Unknown_2BJ)
        } else if code == 0x9B3 {
            Some(Device::KindlePaperWhite5_2DK)
        } else if code == 0x84D {
            Some(Device::KindleBasic4Unknown_22D)
        } else if code == 0x8BB {
            Some(Device::KindleBasic4Unknown_25T)
        } else if code == 0x86A {
            Some(Device::KindleBasic4Unknown_23A)
        } else if code == 0x958 {
            Some(Device::KindleBasic4_2AQ)
        } else if code == 0x957 {
            Some(Device::KindleBasic4_2AP)
        } else if code == 0x7F1 {
            Some(Device::KindleBasic4Unknown_1XH)
        } else if code == 0x84C {
            Some(Device::KindleBasic4Unknown_22C)
        } else if code == 0x8F2 {
            Some(Device::KindleScribeUnknown_27J)
        } else if code == 0x974 {
            Some(Device::KindleScribeUnknown_2BL)
        } else if code == 0x8C3 {
            Some(Device::KindleScribeUnknown_263)
        } else if code == 0x847 {
            Some(Device::KindleScribe16GB_227)
        } else if code == 0x975 {
            Some(Device::KindleScribeUnknown_2BM)
        } else if code == 0x874 {
            Some(Device::KindleScribe_23L)
        } else if code == 0x875 {
            Some(Device::KindleScribe64GB_23M)
        } else if code == 0x8E0 {
            Some(Device::KindleScribeUnknown_270)
        } else if code == 0xE85 {
            Some(Device::KindleBasic5Unknown_3L5)
        } else if code == 0xE86 {
            Some(Device::KindleBasic5Unknown_3L6)
        } else if code == 0xE84 {
            Some(Device::KindleBasic5Unknown_3L4)
        } else if code == 0xE83 {
            Some(Device::KindleBasic5Unknown_3L3)
        } else if code == 0x2909 {
            Some(Device::KindleBasic5Unknown_A89)
        } else if code == 0xE82 {
            Some(Device::KindleBasic5Unknown_3L2)
        } else if code == 0xE75 {
            Some(Device::KindleBasic5Unknown_3KM)
        } else if code == 0xC89 {
            Some(Device::KindlePaperWhite6Unknown_349)
        } else if code == 0xC86 {
            Some(Device::KindlePaperWhite6Unknown_346)
        } else if code == 0xC7F {
            Some(Device::KindlePaperWhite6Unknown_33X)
        } else if code == 0xC7E {
            Some(Device::KindlePaperWhite6Unknown_33W)
        } else if code == 0xE2A {
            Some(Device::KindlePaperWhite6Unknown_3HA)
        } else if code == 0xE25 {
            Some(Device::KindlePaperWhite6Unknown_3H5)
        } else if code == 0xE23 {
            Some(Device::KindlePaperWhite6Unknown_3H3)
        } else if code == 0xE28 {
            Some(Device::KindlePaperWhite6Unknown_3H8)
        } else if code == 0xE45 {
            Some(Device::KindlePaperWhite6Unknown_3J5)
        } else if code == 0xE5A {
            Some(Device::KindlePaperWhite6Unknown_3JS)
        } else if code == 0xFA0 {
            Some(Device::KindleScribe2Unknown_3V0)
        } else if code == 0xFA1 {
            Some(Device::KindleScribe2Unknown_3V1)
        } else if code == 0xFE5 {
            Some(Device::KindleScribe2Unknown_3X5)
        } else if code == 0xF9D {
            Some(Device::KindleScribe2Unknown_3UV)
        } else if code == 0xFE4 {
            Some(Device::KindleScribe2Unknown_3X4)
        } else if code == 0xFE3 {
            Some(Device::KindleScribe2Unknown_3X3)
        } else if code == 0x102E {
            Some(Device::KindleScribe2Unknown_41E)
        } else if code == 0x102D {
            Some(Device::KindleScribe2Unknown_41D)
        } else if code == 0xE29 {
            Some(Device::KindleColorSoftUnknown_3H9)
        } else if code == 0xE24 {
            Some(Device::KindleColorSoftUnknown_3H4)
        } else if code == 0xE2B {
            Some(Device::KindleColorSoftUnknown_3HB)
        } else if code == 0xE26 {
            Some(Device::KindleColorSoftUnknown_3H6)
        } else if code == 0xE22 {
            Some(Device::KindleColorSoftUnknown_3H2)
        } else if code == 0xC9F {
            Some(Device::KindleColorSoftUnknown_34X)
        } else if code == 0xE27 {
            Some(Device::KindleColorSoftUnknown_3H7)
        } else if code == 0xE5B {
            Some(Device::KindleColorSoftUnknown_3JT)
        } else if code == 0xE46 {
            Some(Device::KindleColorSoftUnknown_3J6)
        } else if code == 0x10A6 {
            Some(Device::KindleColorSoftUnknown_456)
        } else if code == 0x10A5 {
            Some(Device::KindleColorSoftUnknown_455)
        } else if code == 0x11D7 {
            Some(Device::KindleColorSoftUnknown_4EP)
        } else if code == 0x00 {
            Some(Device::Unknown)
        } else {
            None
        }
    }

    /// The device model for `code`, with `Unknown` standing in for every code that
    /// names none.
    pub open spec fn lookup(code: int) -> Device {
        match Self::with_code(code) {
            Some(found) => found,
            None => Device::Unknown,
        }
    }

    /// The descriptive label of this device model.
    pub open spec fn label(self) -> Seq<char> {
        match self {
            Device::Kindle1 => "Kindle 1"@,
            Device::Kindle2US => "Kindle 2 US"@,
            Device::Kindle2International => "Kindle 2 International"@,
            Device::KindleDXUS => "Kindle DX US"@,
            Device::KindleDXInternational => "Kindle DX International"@,
            Device::ValidKindleUnknown_0x07 => "Unknown Kindle (0x07)"@,
            Device::Kindle3WiFi3G => "Kindle 3 WiFi+3G"@,
            Device::Kindle3WiFi => "Kindle 3 WiFi"@,
            Device::KindleDXGraphite => "Kindle DX Graphite"@,
            Device::Kindle3WiFi3GEurope => "Kindle 3 WiFi+3G Europe"@,
            Device::ValidKindleUnknown_0x0B => "Unknown Kindle (0x0B)"@,
            Device::ValidKindleUnknown_0x0C => "Unknown Kindle (0x0C)"@,
            Device::ValidKindleUnknown_0x0D => "Unknown Kindle (0x0D)"@,
            Device::Kindle4NonTouch => "Silver Kindle 4 Non-Touch (2011)"@,
            Device::Kindle5TouchWiFi3G => "Kindle 5 Touch WiFi+3G"@,
            Device::Kindle5TouchWiFi3GEurope => "Kindle 5 Touch WiFi+3G Europe"@,
            Device::Kindle5TouchWiFi => "Kindle 5 Touch WiFi"@,
            Device::Kindle5TouchUnknown => "Kindle 5 Touch (Unknown Variant)"@,
            Device::KindlePaperWhiteWiFi3G => "Kindle PaperWhite WiFi+3G"@,
            Device::KindlePaperWhiteWiFi3GCanada => "Kindle PaperWhite WiFi+3G Canada"@,
            Device::KindlePaperWhiteWiFi3GEurope => "Kindle PaperWhite WiFi+3G Europe"@,
            Device::KindlePaperWhiteWiFi3GJapan => "Kindle PaperWhite WiFi+3G Japan"@,
            Device::KindlePaperWhiteWiFi3GBrazil => "Kindle PaperWhite WiFi+3G Brazil"@,
            Device::Kindle4NonTouchBlack => "Black Kindle 4 Non-Touch (2012)"@,
            Device::KindlePaperWhiteWiFi => "Kindle PaperWhite WiFi"@,
            Device::KindlePaperWhite2WiFiJapan => "Kindle PaperWhite 2 (2013) WiFi Japan"@,
            Device::KindlePaperWhite2WiFi => "Kindle PaperWhite 2 (2013) WiFi"@,
            Device::KindlePaperWhite2WiFi3G => "Kindle PaperWhite 2 (2013) WiFi+3G"@,
            Device::KindlePaperWhite2WiFi3GCanada => "Kindle PaperWhite 2 (2013) WiFi+3G Canada"@,
            Device::KindlePaperWhite2WiFi3GEurope => "Kindle PaperWhite 2 (2013) WiFi+3G Europe"@,
            Device::KindlePaperWhite2WiFi3GRussia => "Kindle PaperWhite 2 (2013) WiFi+3G Russia"@,
            Device::KindlePaperWhite2WiFi3GJapan => "Kindle PaperWhite 2 (2013) WiFi+3G Japan"@,
            Device::KindlePaperWhite2WiFi4GBInternational => "Kindle PaperWhite 2 (2013) WiFi (4GB) International"@,
            Device::KindlePaperWhite2WiFi3G4GBCanada => "Kindle PaperWhite 2 (2013) WiFi+3G (4GB) Canada"@,
            Device::KindlePaperWhite2WiFi3G4GBEurope => "Kindle PaperWhite 2 (2013) WiFi+3G (4GB) Europe"@,
            Device::KindlePaperWhite2WiFi3G4GBBrazil => "Kindle PaperWhite 2 (2013) WiFi+3G (4GB) Brazil"@,
            Device::KindlePaperWhite2WiFi3G4GB => "Kindle PaperWhite 2 (2013) WiFi+3G (4GB)"@,
            Device::KindlePaperWhite2Unknown_0xF4 => "Kindle PaperWhite 2 (2013) (Unknown Variant 0xF4)"@,
            Device::KindlePaperWhite2Unknown_0xF9 => "Kindle PaperWhite 2 (2013) (Unknown Variant 0xF9)"@,
            Device::KindleVoyageWiFi => "Kindle Voyage WiFi"@,
            Device::KindleVoyageWiFi3G => "Kindle Voyage WiFi+3G"@,
            Device::KindleVoyageWiFi3GJapan => "Kindle Voyage WiFi+3G Japan"@,
            Device::KindleVoyageWiFi3G_0x4F => "Kindle Voyage WiFi+3G (Variant 0x4F)"@,
            Device::KindleVoyageWiFi3GMexico => "Kindle Voyage WiFi+3G Mexico"@,
            Device::KindleVoyageWiFi3GEurope => "Kindle Voyage WiFi+3G Europe"@,
            Device::KindleBasic => "Kindle Basic (2014)"@,
            Device::ValidKindleUnknown_0x99 => "Unknown Kindle (0x99)"@,
            Device::KindleBasicKiwi => "Kindle Basic (2014) Australia"@,
            Device::ValidKindleUnknown_0x16 => "Unknown Kindle (0x16)"@,
            Device::ValidKindleUnknown_0x21 => "Unknown Kindle (0x21)"@,
            Device::KindlePaperWhite3WiFi => "Kindle PaperWhite 3 (2015) WiFi"@,
            Device::KindlePaperWhite3WiFi3G => "Kindle PaperWhite 3 (2015) WiFi+3G"@,
            Device::KindlePaperWhite3WiFi3GMexico => "Kindle PaperWhite 3 (2015) WiFi+3G Mexico"@,
            Device::KindlePaperWhite3WiFi3GEurope => "Kindle PaperWhite 3 (2015) WiFi+3G Europe"@,
            Device::KindlePaperWhite3WiFi3GCanada => "Kindle PaperWhite 3 (2015) WiFi+3G Canada"@,
            Device::KindlePaperWhite3WiFi3GJapan => "Kindle PaperWhite 3 (2015) WiFi+3G Japan"@,
            Device::KindlePaperWhite3WhiteWiFi => "White Kindle PaperWhite 3 (2016) WiFi"@,
            Device::KindlePaperWhite3WhiteWiFi3GJapan => "White Kindle PaperWhite 3 (2016) WiFi+3G Japan"@,
            Device::KindlePW3WhiteUnknown_0KD => "White Kindle PaperWhite 3 (Unknown Variant 0KD)"@,
            Device::KindlePaperWhite3WhiteWiFi3GInternational => "White Kindle PaperWhite 3 (2016) WiFi+3G International"@,
            Device::KindlePaperWhite3WhiteWiFi3GInternationalBis => "White Kindle PaperWhite 3 (2016) WiFi+3G International (Bis)"@,
            Device::KindlePW3WhiteUnknown_0KG => "White Kindle PaperWhite 3 (Unknown Variant 0KG)"@,
            Device::KindlePaperWhite3BlackWiFi32GBJapan => "Kindle PaperWhite 3 (2016) WiFi (32GB) Japan"@,
            Device::KindlePaperWhite3WhiteWiFi32GBJapan => "White Kindle PaperWhite 3 (2016) WiFi (32GB) Japan"@,
            Device::KindlePW3Unknown_TTT => "Kindle PaperWhite 3 (2016) (Unknown Variant TTT)"@,
            Device::KindleOasisWiFi => "Kindle Oasis WiFi"@,
            Device::KindleOasisWiFi3G => "Kindle Oasis WiFi+3G"@,
            Device::KindleOasisWiFi3GInternational => "Kindle Oasis WiFi+3G International"@,
            Device::KindleOasisUnknown_0GS => "Kindle Oasis (Unknown Variant 0GS)"@,
            Device::KindleOasisWiFi3GChina => "Kindle Oasis WiFi+3G China"@,
            Device::KindleOasisWiFi3GEurope => "Kindle Oasis WiFi+3G Europe"@,
            Device::KindleBasic2Unknown_0DU => "Kindle Basic 2 (2016) (Unknown Variant 0DU)"@,
            Device::KindleBasic2 => "Kindle Basic 2 (2016)"@,
            Device::KindleBasic2White => "White Kindle Basic 2 (2016)"@,
            Device::KindleOasis2Unknown_0LM => "Kindle Oasis 2 (2017) (Unknown Variant 0LM)"@,
            Device::KindleOasis2Unknown_0LN => "Kindle Oasis 2 (2017) (Unknown Variant 0LN)"@,
            Device::KindleOasis2Unknown_0LP => "Kindle Oasis 2 (2017) (Unknown Variant 0LP)"@,
            Device::KindleOasis2Unknown_0LQ => "Kindle Oasis 2 (2017) (Unknown Variant 0LQ)"@,
            Device::KindleOasis2WiFi32GBChampagne => "Champagne Kindle Oasis 2 (2017) WiFi (32GB)"@,
            Device::KindleOasis2Unknown_0P2 => "Kindle Oasis 2 (2017) (Unknown Variant 0P2)"@,
            Device::KindleOasis2Unknown_0P6 => "Kindle Oasis 2 (2017) WiFi+3G (32GB) (Variant 0P6)"@,
            Device::KindleOasis2Unknown_0P7 => "Kindle Oasis 2 (2017) (Unknown Variant 0P7)"@,
            Device::KindleOasis2WiFi8GB => "Kindle Oasis 2 (2017) WiFi (8GB)"@,
            Device::KindleOasis2WiFi3G32GB => "Kindle Oasis 2 (2017) WiFi+3G (32GB)"@,
            Device::KindleOasis2WiFi3G32GBEurope => "Kindle Oasis 2 (2017) WiFi+3G (32GB) Europe"@,
            Device::KindleOasis2Unknown_0S3 => "Kindle Oasis 2 (2017) (Unknown Variant 0S3)"@,
            Device::KindleOasis2Unknown_0S4 => "Kindle Oasis 2 (2017) (Unknown Variant 0S4)"@,
            Device::KindleOasis2Unknown_0S7 => "Kindle Oasis 2 (2017) (Unknown Variant 0S7)"@,
            Device::KindleOasis2WiFi32GB => "Kindle Oasis 2 (2017) WiFi (32GB)"@,
            Device::KindlePaperWhite4WiFi8GB => "Kindle PaperWhite 4 (2018) WiFi (8GB)"@,
            Device::KindlePaperWhite4WiFi4G32GB => "Kindle PaperWhite 4 (2018) WiFi+4G (32GB)"@,
            Device::KindlePaperWhite4WiFi4G32GBEurope => "Kindle PaperWhite 4 (2018) WiFi+4G (32GB) Europe"@,
            Device::KindlePaperWhite4WiFi4G32GBJapan => "Kindle PaperWhite 4 (2018) WiFi+4G (32GB) Japan"@,
            Device::KindlePaperWhite4Unknown_0T4 => "Kindle PaperWhite 4 (2018) (Unknown Variant 0T4)"@,
            Device::KindlePaperWhite4Unknown_0T5 => "Kindle PaperWhite 4 (2018) (Unknown Variant 0T5)"@,
            Device::KindlePaperWhite4WiFi32GB => "Kindle PaperWhite 4 (2018) WiFi (32GB)"@,
            Device::KindlePaperWhite4Unknown_0T7 => "Kindle PaperWhite 4 (2018) (Unknown Variant 0T7)"@,
            Device::KindlePaperWhite4Unknown_0TJ => "Kindle PaperWhite 4 (2018) (Unknown Variant 0TJ)"@,
            Device::KindlePaperWhite4Unknown_0TK => "Kindle PaperWhite 4 (2018) (Unknown Variant 0TK)"@,
            Device::KindlePaperWhite4Unknown_0TL => "Kindle PaperWhite 4 (2018) (Unknown Variant 0TL)"@,
            Device::KindlePaperWhite4Unknown_0TM => "Kindle PaperWhite 4 (2018) (Unknown Variant 0TM)"@,
            Device::KindlePaperWhite4Unknown_0TN => "Kindle PaperWhite 4 (2018) (Unknown Variant 0TN)"@,
            Device::KindlePaperWhite4WiFi8GBIndia => "Kindle PaperWhite 4 (2018) WiFi (8GB) India"@,
            Device::KindlePaperWhite4WiFi32GBIndia => "Kindle PaperWhite 4 (2018) WiFi (32GB) India"@,
            Device::KindlePaperWhite4WiFi32GBBlue => "Twilight Blue Kindle PaperWhite 4 (2018) WiFi (32GB)"@,
            Device::KindlePaperWhite4WiFi32GBPlum => "Plum Kindle PaperWhite 4 (2018) WiFi (32GB)"@,
            Device::KindlePaperWhite4WiFi32GBSage => "Sage Kindle PaperWhite 4 (2018) WiFi (32GB)"@,
            Device::KindlePaperWhite4WiFi8GBBlue => "Twilight Blue Kindle PaperWhite 4 (2018) WiFi (8GB)"@,
            Device::KindlePaperWhite4WiFi8GBPlum => "Plum Kindle PaperWhite 4 (2018) WiFi (8GB)"@,
            Device::KindlePaperWhite4WiFi8GBSage => "Sage Kindle PaperWhite 4 (2018) WiFi (8GB)"@,
            Device::KindlePW4Unknown_0PL => "Kindle PaperWhite 4 (2018) (Unknown Variant 0PL)"@,
            Device::KindleBasic3 => "Kindle Basic 3 (2019)"@,
            Device::KindleBasic3White8GB => "White Kindle Basic 3 (2019) (8GB)"@,
            Device::KindleBasic3Unknown_0WG => "Kindle Basic 3 (2019) (Unknown Variant 0WG)"@,
            Device::KindleBasic3White => "White Kindle Basic 3 (2019)"@,
            Device::KindleBasic3Unknown_0WJ => "Kindle Basic 3 (2019) (Unknown Variant 0WJ)"@,
            Device::KindleBasic3KidsEdition => "Kindle Basic 3 (2019) Kids Edition"@,
            Device::KindleOasis3WiFi32GBChampagne => "Champagne Kindle Oasis 3 (2019) WiFi (32GB)"@,
            Device::KindleOasis3WiFi4G32GBJapan => "Kindle Oasis 3 (2019) WiFi+4G (32GB) Japan"@,
            Device::KindleOasis3WiFi4G32GBIndia => "Kindle Oasis 3 (2019) WiFi+4G (32GB) India"@,
            Device::KindleOasis3WiFi4G32GB => "Kindle Oasis 3 (2019) WiFi+4G (32GB)"@,
            Device::KindleOasis3WiFi32GB => "Kindle Oasis 3 (2019) WiFi (32GB)"@,
            Device::KindleOasis3WiFi8GB => "Kindle Oasis 3 (2019) WiFi (8GB)"@,
            Device::KindlePaperWhite5SignatureEdition => "Kindle PaperWhite 5 Signature Edition (2021)"@,
            Device::KindlePaperWhite5Unknown_1Q0 => "Kindle PaperWhite 5 (2011) (Unknown Variant 1Q0)"@,
            Device::KindlePaperWhite5 => "Kindle PaperWhite 5 (2021)"@,
            Device::KindlePaperWhite5Unknown_1VD => "Kindle PaperWhite 5 (2021) (Unknown Variant 1VD)"@,
            Device::KindlePaperWhite5SE_219 => "Kindle PaperWhite 5 Signature Edition (2021) (Variant 219)"@,
            Device::KindlePaperWhite5_21A => "Kindle PaperWhite 5 (2021) (Variant 21A)"@,
            Device::KindlePaperWhite5SE_2BH => "Kindle PaperWhite 5 Signature Edition (2021) (Variant 2BH)"@,
            Device::KindlePaperWhite5Unknown_2BJ => "Kindle PaperWhite 5 (2021) (Unknown Variant 2BJ)"@,
            Device::KindlePaperWhite5_2DK => "Kindle PaperWhite 5 (2021) (Variant 2DK)"@,
            Device::KindleBasic4Unknown_22D => "Kindle Basic 4 (2022) (Unknown Variant 22D)"@,
            Device::KindleBasic4Unknown_25T => "Kindle Basic 4 (2022) (Unknown Variant 25T)"@,
            Device::KindleBasic4Unknown_23A => "Kindle Basic 4 (2022) (Unknown Variant 23A)"@,
            Device::KindleBasic4_2AQ => "Kindle Basic 4 (2022) (Variant 2AQ)"@,
            Device::KindleBasic4_2AP => "Kindle Basic 4 (2022) (Variant 2AP)"@,
            Device::KindleBasic4Unknown_1XH => "Kindle Basic 4 (2022) (Unknown Variant 1XH)"@,
            Device::KindleBasic4Unknown_22C => "Kindle Basic 4 (2022) (Unknown Variant 22C)"@,
            Device::KindleScribeUnknown_27J => "Kindle Scribe (Unknown Variant 27J)"@,
            Device::KindleScribeUnknown_2BL => "Kindle Scribe (Unknown Variant 2BL)"@,
            Device::KindleScribeUnknown_263 => "Kindle Scribe (Unknown Variant 263)"@,
            Device::KindleScribe16GB_227 => "Kindle Scribe (16GB) (Variant 227)"@,
            Device::KindleScribeUnknown_2BM => "Kindle Scribe (Unknown Variant 2BM)"@,
            Device::KindleScribe_23L => "Kindle Scribe (Variant 23L)"@,
            Device::KindleScribe64GB_23M => "Kindle Scribe (64GB) (Variant 23M)"@,
            Device::KindleScribeUnknown_270 => "Kindle Scribe (Unknown Variant 270)"@,
            Device::KindleBasic5Unknown_3L5 => "Kindle Basic 5 (2024) (Unknown Variant 3L5)"@,
            Device::KindleBasic5Unknown_3L6 => "Kindle Basic 5 (2024) (Unknown Variant 3L6)"@,
            Device::KindleBasic5Unknown_3L4 => "Kindle Basic 5 (2024) (Unknown Variant 3L4)"@,
            Device::KindleBasic5Unknown_3L3 => "Kindle Basic 5 (2024) (Unknown Variant 3L3)"@,
            Device::KindleBasic5Unknown_A89 => "Kindle Basic 5 (2024) (Unknown Variant A89)"@,
            Device::KindleBasic5Unknown_3L2 => "Kindle Basic 5 (2024) (Unknown Variant 3L2)"@,
            Device::KindleBasic5Unknown_3KM => "Kindle Basic 5 (2024) (Unknown Variant 3KM)"@,
            Device::KindlePaperWhite6Unknown_349 => "Kindle PaperWhite 6 (2024) (Unknown Variant 349)"@,
            Device::KindlePaperWhite6Unknown_346 => "Kindle PaperWhite 6 (2024) (Unknown Variant 346)"@,
            Device::KindlePaperWhite6Unknown_33X => "Kindle PaperWhite 6 (2024) (Unknown Variant 33X)"@,
            Device::KindlePaperWhite6Unknown_33W => "Kindle PaperWhite 6 (2024) (Unknown Variant 33W)"@,
            Device::KindlePaperWhite6Unknown_3HA => "Kindle PaperWhite 6 (2024) (Unknown Variant 3HA)"@,
            Device::KindlePaperWhite6Unknown_3H5 => "Kindle PaperWhite 6 (2024) (Unknown Variant 3H5)"@,
            Device::KindlePaperWhite6Unknown_3H3 => "Kindle PaperWhite 6 (2024) (Unknown Variant 3H3)"@,
            Device::KindlePaperWhite6Unknown_3H8 => "Kindle PaperWhite 6 (2024) (Unknown Variant 3H8)"@,
            Device::KindlePaperWhite6Unknown_3J5 => "Kindle PaperWhite 6 (2024) (Unknown Variant 3J5)"@,
            Device::KindlePaperWhite6Unknown_3JS => "Kindle PaperWhite 6 (2024) (Unknown Variant 3JS)"@,
            Device::KindleScribe2Unknown_3V0 => "Kindle Scribe 2 (2024) (Unknown Variant 3V0)"@,
            Device::KindleScribe2Unknown_3V1 => "Kindle Scribe 2 (2024) (Unknown Variant 3V1)"@,
            Device::KindleScribe2Unknown_3X5 => "Kindle Scribe 2 (2024) (Unknown Variant 3X5)"@,
            Device::KindleScribe2Unknown_3UV => "Kindle Scribe 2 (2024) (Unknown Variant 3UV)"@,
            Device::KindleScribe2Unknown_3X4 => "Kindle Scribe 2 (2024) (Unknown Variant 3X4)"@,
            Device::KindleScribe2Unknown_3X3 => "Kindle Scribe 2 (2024) (Unknown Variant 3X3)"@,
            Device::KindleScribe2Unknown_41E => "Kindle Scribe 2 (2024) (Unknown Variant 41E)"@,
            Device::KindleScribe2Unknown_41D => "Kindle Scribe 2 (2024) (Unknown Variant 41D)"@,
            Device::KindleColorSoftUnknown_3H9 => "Kindle ColorSoft (2024) (Unknown Variant 3H9)"@,
            Device::KindleColorSoftUnknown_3H4 => "Kindle ColorSoft (2024) (Unknown Variant 3H4)"@,
            Device::KindleColorSoftUnknown_3HB => "Kindle ColorSoft (2024) (Unknown Variant 3HB)"@,
            Device::KindleColorSoftUnknown_3H6 => "Kindle ColorSoft (2024) (Unknown Variant 3H6)"@,
            Device::KindleColorSoftUnknown_3H2 => "Kindle ColorSoft (2024) (Unknown Variant 3H2)"@,
            Device::KindleColorSoftUnknown_34X => "Kindle ColorSoft (2024) (Unknown Variant 34X)"@,
            Device::KindleColorSoftUnknown_3H7 => "Kindle ColorSoft (2024) (Unknown Variant 3H7)"@,
            Device::KindleColorSoftUnknown_3JT => "Kindle ColorSoft (2024) (Unknown Variant 3JT)"@,
            Device::KindleColorSoftUnknown_3J6 => "Kindle ColorSoft (2024) (Unknown Variant 3J6)"@,
            Device::KindleColorSoftUnknown_456 => "Kindle ColorSoft (2024) (Unknown Variant 456)"@,
            Device::KindleColorSoftUnknown_455 => "Kindle ColorSoft (2024) (Unknown Variant 455)"@,
            Device::KindleColorSoftUnknown_4EP => "Kindle ColorSoft (2024) (Unknown Variant 4EP)"@,
            Device::Unknown => "Unknown"@,
        }
    }

    /// Looks a numeric code up; `None` when no device model carries it.
    pub fn from_repr(code: usize) -> (found: Option<Device>)
        ensures
            found == Self::with_code(code as int),
    {
        match code {
            0x01 => Some(Device::Kindle1),
            0x02 => Some(Device::Kindle2US),
            0x03 => Some(Device::Kindle2International),
            0x04 => Some(Device::KindleDXUS),
            0x05 => Some(Device::KindleDXInternational),
            0x07 => Some(Device::ValidKindleUnknown_0x07),
            0x06 => Some(Device::Kindle3WiFi3G),
            0x08 => Some(Device::Kindle3WiFi),
            0x09 => Some(Device::KindleDXGraphite),
            0x0A => Some(Device::Kindle3WiFi3GEurope),
            0x0B => Some(Device::ValidKindleUnknown_0x0B),
            0x0C => Some(Device::ValidKindleUnknown_0x0C),
            0x0D => Some(Device::ValidKindleUnknown_0x0D),
            0x0E => Some(Device::Kindle4NonTouch),
            0x0F => Some(Device::Kindle5TouchWiFi3G),
            0x10 => Some(Device::Kindle5TouchWiFi3GEurope),
            0x11 => Some(Device::Kindle5TouchWiFi),
            0x12 => Some(Device::Kindle5TouchUnknown),
            0x1B => Some(Device::KindlePaperWhiteWiFi3G),
            0x1C => Some(Device::KindlePaperWhiteWiFi3GCanada),
            0x1D => Some(Device::KindlePaperWhiteWiFi3GEurope),
            0x1F => Some(Device::KindlePaperWhiteWiFi3GJapan),
            0x20 => Some(Device::KindlePaperWhiteWiFi3GBrazil),
            0x23 => Some(Device::Kindle4NonTouchBlack),
            0x24 => Some(Device::KindlePaperWhiteWiFi),
            0x5A => Some(Device::KindlePaperWhite2WiFiJapan),
            0xD4 => Some(Device::KindlePaperWhite2WiFi),
            0xD5 => Some(Device::KindlePaperWhite2WiFi3G),
            0xD6 => Some(Device::KindlePaperWhite2WiFi3GCanada),
            0xD7 => Some(Device::KindlePaperWhite2WiFi3GEurope),
            0xD8 => Some(Device::KindlePaperWhite2WiFi3GRussia),
            0xF2 => Some(Device::KindlePaperWhite2WiFi3GJapan),
            0x17 => Some(Device::KindlePaperWhite2WiFi4GBInternational),
            0x5F => Some(Device::KindlePaperWhite2WiFi3G4GBCanada),
            0x60 => Some(Device::KindlePaperWhite2WiFi3G4GBEurope),
            0x61 => Some(Device::KindlePaperWhite2WiFi3G4GBBrazil),
            0x62 => Some(Device::KindlePaperWhite2WiFi3G4GB),
            0xF4 => Some(Device::KindlePaperWhite2Unknown_0xF4),
            0xF9 => Some(Device::KindlePaperWhite2Unknown_0xF9),
            0x13 => Some(Device::KindleVoyageWiFi),
            0x54 => Some(Device::KindleVoyageWiFi3G),
            0x2A => Some(Device::KindleVoyageWiFi3GJapan),
            0x4F => Some(Device::KindleVoyageWiFi3G_0x4F),
            0x52 => Some(Device::KindleVoyageWiFi3GMexico),
            0x53 => Some(Device::KindleVoyageWiFi3GEurope),
            0xC6 => Some(Device::KindleBasic),
            0x99 => Some(Device::ValidKindleUnknown_0x99),
            0xDD => Some(Device::KindleBasicKiwi),
            0x16 => Some(Device::ValidKindleUnknown_0x16),
            0x21 => Some(Device::ValidKindleUnknown_0x21),
            0x201 => Some(Device::KindlePaperWhite3WiFi),
            0x202 => Some(Device::KindlePaperWhite3WiFi3G),
            0x204 => Some(Device::KindlePaperWhite3WiFi3GMexico),
            0x205 => Some(Device::KindlePaperWhite3WiFi3GEurope),
            0x206 => Some(Device::KindlePaperWhite3WiFi3GCanada),
            0x207 => Some(Device::KindlePaperWhite3WiFi3GJapan),
            0x26B => Some(Device::KindlePaperWhite3WhiteWiFi),
            0x26C => Some(Device::KindlePaperWhite3WhiteWiFi3GJapan),
            0x26D => Some(Device::KindlePW3WhiteUnknown_0KD),
            0x26E => Some(Device::KindlePaperWhite3WhiteWiFi3GInternational),
            0x26F => Some(Device::KindlePaperWhite3WhiteWiFi3GInternationalBis),
            0x270 => Some(Device::KindlePW3WhiteUnknown_0KG),
            0x293 => Some(Device::KindlePaperWhite3BlackWiFi32GBJapan),
            0x294 => Some(Device::KindlePaperWhite3WhiteWiFi32GBJapan),
            0x6F7B => Some(Device::KindlePW3Unknown_TTT),
            0x20C => Some(Device::KindleOasisWiFi),
            0x20D => Some(Device::KindleOasisWiFi3G),
            0x219 => Some(Device::KindleOasisWiFi3GInternational),
            0x21A => Some(Device::KindleOasisUnknown_0GS),
            0x21B => Some(Device::KindleOasisWiFi3GChina),
            0x21C => Some(Device::KindleOasisWiFi3GEurope),
            0x1BC => Some(Device::KindleBasic2Unknown_0DU),
            0x269 => Some(Device::KindleBasic2),
            0x26A => Some(Device::KindleBasic2White),
            0x295 => Some(Device::KindleOasis2Unknown_0LM),
            0x296 => Some(Device::KindleOasis2Unknown_0LN),
            0x297 => Some(Device::KindleOasis2Unknown_0LP),
            0x298 => Some(Device::KindleOasis2Unknown_0LQ),
            0x2E1 => Some(Device::KindleOasis2WiFi32GBChampagne),
            0x2E2 => Some(Device::KindleOasis2Unknown_0P2),
            0x2E6 => Some(Device::KindleOasis2Unknown_0P6),
            0x2E7 => Some(Device::KindleOasis2Unknown_0P7),
            0x2E8 => Some(Device::KindleOasis2WiFi8GB),
            0x341 => Some(Device::KindleOasis2WiFi3G32GB),
            0x342 => Some(Device::KindleOasis2WiFi3G32GBEurope),
            0x343 => Some(Device::KindleOasis2Unknown_0S3),
            0x344 => Some(Device::KindleOasis2Unknown_0S4),
            0x347 => Some(Device::KindleOasis2Unknown_0S7),
            0x34A => Some(Device::KindleOasis2WiFi32GB),
            0x2F7 => Some(Device::KindlePaperWhite4WiFi8GB),
            0x361 => Some(Device::KindlePaperWhite4WiFi4G32GB),
            0x362 => Some(Device::KindlePaperWhite4WiFi4G32GBEurope),
            0x363 => Some(Device::KindlePaperWhite4WiFi4G32GBJapan),
            0x364 => Some(Device::KindlePaperWhite4Unknown_0T4),
            0x365 => Some(Device::KindlePaperWhite4Unknown_0T5),
            0x366 => Some(Device::KindlePaperWhite4WiFi32GB),
            0x367 => Some(Device::KindlePaperWhite4Unknown_0T7),
            0x372 => Some(Device::KindlePaperWhite4Unknown_0TJ),
            0x373 => Some(Device::KindlePaperWhite4Unknown_0TK),
            0x374 => Some(Device::KindlePaperWhite4Unknown_0TL),
            0x375 => Some(Device::KindlePaperWhite4Unknown_0TM),
            0x376 => Some(Device::KindlePaperWhite4Unknown_0TN),
            0x402 => Some(Device::KindlePaperWhite4WiFi8GBIndia),
            0x403 => Some(Device::KindlePaperWhite4WiFi32GBIndia),
            0x4D8 => Some(Device::KindlePaperWhite4WiFi32GBBlue),
            0x4D9 => Some(Device::KindlePaperWhite4WiFi32GBPlum),
            0x4DA => Some(Device::KindlePaperWhite4WiFi32GBSage),
            0x4DB => Some(Device::KindlePaperWhite4WiFi8GBBlue),
            0x4DC => Some(Device::KindlePaperWhite4WiFi8GBPlum),
            0x4DD => Some(Device::KindlePaperWhite4WiFi8GBSage),
            0x2F4 => Some(Device::KindlePW4Unknown_0PL),
            0x414 => Some(Device::KindleBasic3),
            0x3CF => Some(Device::KindleBasic3White8GB),
            0x3D0 => Some(Device::KindleBasic3Unknown_0WG),
            0x3D1 => Some(Device::KindleBasic3White),
            0x3D2 => Some(Device::KindleBasic3Unknown_0WJ),
            0x3AB => Some(Device::KindleBasic3KidsEdition),
            0x434 => Some(Device::KindleOasis3WiFi32GBChampagne),
            0x3D8 => Some(Device::KindleOasis3WiFi4G32GBJapan),
            0x3D7 => Some(Device::KindleOasis3WiFi4G32GBIndia),
            0x3D6 => Some(Device::KindleOasis3WiFi4G32GB),
            0x3D5 => Some(Device::KindleOasis3WiFi32GB),
            0x3D4 => Some(Device::KindleOasis3WiFi8GB),
            0x690 => Some(Device::KindlePaperWhite5SignatureEdition),
            0x700 => Some(Device::KindlePaperWhite5Unknown_1Q0),
            0x6FF => Some(Device::KindlePaperWhite5),
            0x7AD => Some(Device::KindlePaperWhite5Unknown_1VD),
            0x829 => Some(Device::KindlePaperWhite5SE_219),
            0x82A => Some(Device::KindlePaperWhite5_21A),
            0x971 => Some(Device::KindlePaperWhite5SE_2BH),
            0x972 => Some(Device::KindlePaperWhite5Unknown_2BJ),
            0x9B3 => Some(Device::KindlePaperWhite5_2DK),
            0x84D => Some(Device::KindleBasic4Unknown_22D),
            0x8BB => Some(Device::KindleBasic4Unknown_25T),
            0x86A => Some(Device::KindleBasic4Unknown_23A),
            0x958 => Some(Device::KindleBasic4_2AQ),
            0x957 => Some(Device::KindleBasic4_2AP),
            0x7F1 => Some(Device::KindleBasic4Unknown_1XH),
            0x84C => Some(Device::KindleBasic4Unknown_22C),
            0x8F2 => Some(Device::KindleScribeUnknown_27J),
            0x974 => Some(Device::KindleScribeUnknown_2BL),
            0x8C3 => Some(Device::KindleScribeUnknown_263),
            0x847 => Some(Device::KindleScribe16GB_227),
            0x975 => Some(Device::KindleScribeUnknown_2BM),
            0x874 => Some(Device::KindleScribe_23L),
            0x875 => Some(Device::KindleScribe64GB_23M),
            0x8E0 => Some(Device::KindleScribeUnknown_270),
            0xE85 => Some(Device::KindleBasic5Unknown_3L5),
            0xE86 => Some(Device::KindleBasic5Unknown_3L6),
            0xE84 => Some(Device::KindleBasic5Unknown_3L4),
            0xE83 => Some(Device::KindleBasic5Unknown_3L3),
            0x2909 => Some(Device::KindleBasic5Unknown_A89),
            0xE82 => Some(Device::KindleBasic5Unknown_3L2),
            0xE75 => Some(Device::KindleBasic5Unknown_3KM),
            0xC89 => Some(Device::KindlePaperWhite6Unknown_349),
            0xC86 => Some(Device::KindlePaperWhite6Unknown_346),
            0xC7F => Some(Device::KindlePaperWhite6Unknown_33X),
            0xC7E => Some(Device::KindlePaperWhite6Unknown_33W),
            0xE2A => Some(Device::KindlePaperWhite6Unknown_3HA),
            0xE25 => Some(Device::KindlePaperWhite6Unknown_3H5),
            0xE23 => Some(Device::KindlePaperWhite6Unknown_3H3),
            0xE28 => Some(Device::KindlePaperWhite6Unknown_3H8),
            0xE45 => Some(Device::KindlePaperWhite6Unknown_3J5),
            0xE5A => Some(Device::KindlePaperWhite6Unknown_3JS),
            0xFA0 => Some(Device::KindleScribe2Unknown_3V0),
            0xFA1 => Some(Device::KindleScribe2Unknown_3V1),
            0xFE5 => Some(Device::KindleScribe2Unknown_3X5),
            0xF9D => Some(Device::KindleScribe2Unknown_3UV),
            0xFE4 => Some(Device::KindleScribe2Unknown_3X4),
            0xFE3 => Some(Device::KindleScribe2Unknown_3X3),
            0x102E => Some(Device::KindleScribe2Unknown_41E),
            0x102D => Some(Device::KindleScribe2Unknown_41D),
            0xE29 => Some(Device::KindleColorSoftUnknown_3H9),
            0xE24 => Some(Device::KindleColorSoftUnknown_3H4),
            0xE2B => Some(Device::KindleColorSoftUnknown_3HB),
            0xE26 => Some(Device::KindleColorSoftUnknown_3H6),
            0xE22 => Some(Device::KindleColorSoftUnknown_3H2),
            0xC9F => Some(Device::KindleColorSoftUnknown_34X),
            0xE27 => Some(Device::KindleColorSoftUnknown_3H7),
            0xE5B => Some(Device::KindleColorSoftUnknown_3JT),
            0xE46 => Some(Device::KindleColorSoftUnknown_3J6),
            0x10A6 => Some(Device::KindleColorSoftUnknown_456),
            0x10A5 => Some(Device::KindleColorSoftUnknown_455),
            0x11D7 => Some(Device::KindleColorSoftUnknown_4EP),
            0x00 => Some(Device::Unknown),
            _ => None,
        }
    }

    /// The descriptive label of this device model, as static text.
    pub fn name(&self) -> (text: &'static str)
        ensures
            text@ == self.label(),
    {
        match self {
            Device::Kindle1 => "Kindle 1",
            Device::Kindle2US => "Kindle 2 US",
            Device::Kindle2International => "Kindle 2 International",
            Device::KindleDXUS => "Kindle DX US",
            Device::KindleDXInternational => "Kindle DX International",
            Device::ValidKindleUnknown_0x07 => "Unknown Kindle (0x07)",
            Device::Kindle3WiFi3G => "Kindle 3 WiFi+3G",
            Device::Kindle3WiFi => "Kindle 3 WiFi",
            Device::KindleDXGraphite => "Kindle DX Graphite",
            Device::Kindle3WiFi3GEurope => "Kindle 3 WiFi+3G Europe",
            Device::ValidKindleUnknown_0x0B => "Unknown Kindle (0x0B)",
            Device::ValidKindleUnknown_0x0C => "Unknown Kindle (0x0C)",
            Device::ValidKindleUnknown_0x0D => "Unknown Kindle (0x0D)",
            Device::Kindle4NonTouch => "Silver Kindle 4 Non-Touch (2011)",
            Device::Kindle5TouchWiFi3G => "Kindle 5 Touch WiFi+3G",
            Device::Kindle5TouchWiFi3GEurope => "Kindle 5 Touch WiFi+3G Europe",
            Device::Kindle5TouchWiFi => "Kindle 5 Touch WiFi",
            Device::Kindle5TouchUnknown => "Kindle 5 Touch (Unknown Variant)",
            Device::KindlePaperWhiteWiFi3G => "Kindle PaperWhite WiFi+3G",
            Device::KindlePaperWhiteWiFi3GCanada => "Kindle PaperWhite WiFi+3G Canada",
            Device::KindlePaperWhiteWiFi3GEurope => "Kindle PaperWhite WiFi+3G Europe",
            Device::KindlePaperWhiteWiFi3GJapan => "Kindle PaperWhite WiFi+3G Japan",
            Device::KindlePaperWhiteWiFi3GBrazil => "Kindle PaperWhite WiFi+3G Brazil",
            Device::Kindle4NonTouchBlack => "Black Kindle 4 Non-Touch (2012)",
            Device::KindlePaperWhiteWiFi => "Kindle PaperWhite WiFi",
            Device::KindlePaperWhite2WiFiJapan => "Kindle PaperWhite 2 (2013) WiFi Japan",
            Device::KindlePaperWhite2WiFi => "Kindle PaperWhite 2 (2013) WiFi",
            Device::KindlePaperWhite2WiFi3G => "Kindle PaperWhite 2 (2013) WiFi+3G",
            Device::KindlePaperWhite2WiFi3GCanada => "Kindle PaperWhite 2 (2013) WiFi+3G Canada",
            Device::KindlePaperWhite2WiFi3GEurope => "Kindle PaperWhite 2 (2013) WiFi+3G Europe",
            Device::KindlePaperWhite2WiFi3GRussia => "Kindle PaperWhite 2 (2013) WiFi+3G Russia",
            Device::KindlePaperWhite2WiFi3GJapan => "Kindle PaperWhite 2 (2013) WiFi+3G Japan",
            Device::KindlePaperWhite2WiFi4GBInternational => "Kindle PaperWhite 2 (2013) WiFi (4GB) International",
            Device::KindlePaperWhite2WiFi3G4GBCanada => "Kindle PaperWhite 2 (2013) WiFi+3G (4GB) Canada",
            Device::KindlePaperWhite2WiFi3G4GBEurope => "Kindle PaperWhite 2 (2013) WiFi+3G (4GB) Europe",
            Device::KindlePaperWhite2WiFi3G4GBBrazil => "Kindle PaperWhite 2 (2013) WiFi+3G (4GB) Brazil",
            Device::KindlePaperWhite2WiFi3G4GB => "Kindle PaperWhite 2 (2013) WiFi+3G (4GB)",
            Device::KindlePaperWhite2Unknown_0xF4 => "Kindle PaperWhite 2 (2013) (Unknown Variant 0xF4)",
            Device::KindlePaperWhite2Unknown_0xF9 => "Kindle PaperWhite 2 (2013) (Unknown Variant 0xF9)",
            Device::KindleVoyageWiFi => "Kindle Voyage WiFi",
            Device::KindleVoyageWiFi3G => "Kindle Voyage WiFi+3G",
            Device::KindleVoyageWiFi3GJapan => "Kindle Voyage WiFi+3G Japan",
            Device::KindleVoyageWiFi3G_0x4F => "Kindle Voyage WiFi+3G (Variant 0x4F)",
            Device::KindleVoyageWiFi3GMexico => "Kindle Voyage WiFi+3G Mexico",
            Device::KindleVoyageWiFi3GEurope => "Kindle Voyage WiFi+3G Europe",
            Device::KindleBasic => "Kindle Basic (2014)",
            Device::ValidKindleUnknown_0x99 => "Unknown Kindle (0x99)",
            Device::KindleBasicKiwi => "Kindle Basic (2014) Australia",
            Device::ValidKindleUnknown_0x16 => "Unknown Kindle (0x16)",
            Device::ValidKindleUnknown_0x21 => "Unknown Kindle (0x21)",
            Device::KindlePaperWhite3WiFi => "Kindle PaperWhite 3 (2015) WiFi",
            Device::KindlePaperWhite3WiFi3G => "Kindle PaperWhite 3 (2015) WiFi+3G",
            Device::KindlePaperWhite3WiFi3GMexico => "Kindle PaperWhite 3 (2015) WiFi+3G Mexico",
            Device::KindlePaperWhite3WiFi3GEurope => "Kindle PaperWhite 3 (2015) WiFi+3G Europe",
            Device::KindlePaperWhite3WiFi3GCanada => "Kindle PaperWhite 3 (2015) WiFi+3G Canada",
            Device::KindlePaperWhite3WiFi3GJapan => "Kindle PaperWhite 3 (2015) WiFi+3G Japan",
            Device::KindlePaperWhite3WhiteWiFi => "White Kindle PaperWhite 3 (2016) WiFi",
            Device::KindlePaperWhite3WhiteWiFi3GJapan => "White Kindle PaperWhite 3 (2016) WiFi+3G Japan",
            Device::KindlePW3WhiteUnknown_0KD => "White Kindle PaperWhite 3 (Unknown Variant 0KD)",
            Device::KindlePaperWhite3WhiteWiFi3GInternational => "White Kindle PaperWhite 3 (2016) WiFi+3G International",
            Device::KindlePaperWhite3WhiteWiFi3GInternationalBis => "White Kindle PaperWhite 3 (2016) WiFi+3G International (Bis)",
            Device::KindlePW3WhiteUnknown_0KG => "White Kindle PaperWhite 3 (Unknown Variant 0KG)",
            Device::KindlePaperWhite3BlackWiFi32GBJapan => "Kindle PaperWhite 3 (2016) WiFi (32GB) Japan",
            Device::KindlePaperWhite3WhiteWiFi32GBJapan => "White Kindle PaperWhite 3 (2016) WiFi (32GB) Japan",
            Device::KindlePW3Unknown_TTT => "Kindle PaperWhite 3 (2016) (Unknown Variant TTT)",
            Device::KindleOasisWiFi => "Kindle Oasis WiFi",
            Device::KindleOasisWiFi3G => "Kindle Oasis WiFi+3G",
            Device::KindleOasisWiFi3GInternational => "Kindle Oasis WiFi+3G International",
            Device::KindleOasisUnknown_0GS => "Kindle Oasis (Unknown Variant 0GS)",
            Device::KindleOasisWiFi3GChina => "Kindle Oasis WiFi+3G China",
            Device::KindleOasisWiFi3GEurope => "Kindle Oasis WiFi+3G Europe",
            Device::KindleBasic2Unknown_0DU => "Kindle Basic 2 (2016) (Unknown Variant 0DU)",
            Device::KindleBasic2 => "Kindle Basic 2 (2016)",
            Device::KindleBasic2White => "White Kindle Basic 2 (2016)",
            Device::KindleOasis2Unknown_0LM => "Kindle Oasis 2 (2017) (Unknown Variant 0LM)",
            Device::KindleOasis2Unknown_0LN => "Kindle Oasis 2 (2017) (Unknown Variant 0LN)",
            Device::KindleOasis2Unknown_0LP => "Kindle Oasis 2 (2017) (Unknown Variant 0LP)",
            Device::KindleOasis2Unknown_0LQ => "Kindle Oasis 2 (2017) (Unknown Variant 0LQ)",
            Device::KindleOasis2WiFi32GBChampagne => "Champagne Kindle Oasis 2 (2017) WiFi (32GB)",
            Device::KindleOasis2Unknown_0P2 => "Kindle Oasis 2 (2017) (Unknown Variant 0P2)",
            Device::KindleOasis2Unknown_0P6 => "Kindle Oasis 2 (2017) WiFi+3G (32GB) (Variant 0P6)",
            Device::KindleOasis2Unknown_0P7 => "Kindle Oasis 2 (2017) (Unknown Variant 0P7)",
            Device::KindleOasis2WiFi8GB => "Kindle Oasis 2 (2017) WiFi (8GB)",
            Device::KindleOasis2WiFi3G32GB => "Kindle Oasis 2 (2017) WiFi+3G (32GB)",
            Device::KindleOasis2WiFi3G32GBEurope => "Kindle Oasis 2 (2017) WiFi+3G (32GB) Europe",
            Device::KindleOasis2Unknown_0S3 => "Kindle Oasis 2 (2017) (Unknown Variant 0S3)",
            Device::KindleOasis2Unknown_0S4 => "Kindle Oasis 2 (2017) (Unknown Variant 0S4)",
            Device::KindleOasis2Unknown_0S7 => "Kindle Oasis 2 (2017) (Unknown Variant 0S7)",
            Device::KindleOasis2WiFi32GB => "Kindle Oasis 2 (2017) WiFi (32GB)",
            Device::KindlePaperWhite4WiFi8GB => "Kindle PaperWhite 4 (2018) WiFi (8GB)",
            Device::KindlePaperWhite4WiFi4G32GB => "Kindle PaperWhite 4 (2018) WiFi+4G (32GB)",
            Device::KindlePaperWhite4WiFi4G32GBEurope => "Kindle PaperWhite 4 (2018) WiFi+4G (32GB) Europe",
            Device::KindlePaperWhite4WiFi4G32GBJapan => "Kindle PaperWhite 4 (2018) WiFi+4G (32GB) Japan",
            Device::KindlePaperWhite4Unknown_0T4 => "Kindle PaperWhite 4 (2018) (Unknown Variant 0T4)",
            Device::KindlePaperWhite4Unknown_0T5 => "Kindle PaperWhite 4 (2018) (Unknown Variant 0T5)",
            Device::KindlePaperWhite4WiFi32GB => "Kindle PaperWhite 4 (2018) WiFi (32GB)",
            Device::KindlePaperWhite4Unknown_0T7 => "Kindle PaperWhite 4 (2018) (Unknown Variant 0T7)",
            Device::KindlePaperWhite4Unknown_0TJ => "Kindle PaperWhite 4 (2018) (Unknown Variant 0TJ)",
            Device::KindlePaperWhite4Unknown_0TK => "Kindle PaperWhite 4 (2018) (Unknown Variant 0TK)",
            Device::KindlePaperWhite4Unknown_0TL => "Kindle PaperWhite 4 (2018) (Unknown Variant 0TL)",
            Device::KindlePaperWhite4Unknown_0TM => "Kindle PaperWhite 4 (2018) (Unknown Variant 0TM)",
            Device::KindlePaperWhite4Unknown_0TN => "Kindle PaperWhite 4 (2018) (Unknown Variant 0TN)",
            Device::KindlePaperWhite4WiFi8GBIndia => "Kindle PaperWhite 4 (2018) WiFi (8GB) India",
            Device::KindlePaperWhite4WiFi32GBIndia => "Kindle PaperWhite 4 (2018) WiFi (32GB) India",
            Device::KindlePaperWhite4WiFi32GBBlue => "Twilight Blue Kindle PaperWhite 4 (2018) WiFi (32GB)",
            Device::KindlePaperWhite4WiFi32GBPlum => "Plum Kindle PaperWhite 4 (2018) WiFi (32GB)",
            Device::KindlePaperWhite4WiFi32GBSage => "Sage Kindle PaperWhite 4 (2018) WiFi (32GB)",
            Device::KindlePaperWhite4WiFi8GBBlue => "Twilight Blue Kindle PaperWhite 4 (2018) WiFi (8GB)",
            Device::KindlePaperWhite4WiFi8GBPlum => "Plum Kindle PaperWhite 4 (2018) WiFi (8GB)",
            Device::KindlePaperWhite4WiFi8GBSage => "Sage Kindle PaperWhite 4 (2018) WiFi (8GB)",
            Device::KindlePW4Unknown_0PL => "Kindle PaperWhite 4 (2018) (Unknown Variant 0PL)",
            Device::KindleBasic3 => "Kindle Basic 3 (2019)",
            Device::KindleBasic3White8GB => "White Kindle Basic 3 (2019) (8GB)",
            Device::KindleBasic3Unknown_0WG => "Kindle Basic 3 (2019) (Unknown Variant 0WG)",
            Device::KindleBasic3White => "White Kindle Basic 3 (2019)",
            Device::KindleBasic3Unknown_0WJ => "Kindle Basic 3 (2019) (Unknown Variant 0WJ)",
            Device::KindleBasic3KidsEdition => "Kindle Basic 3 (2019) Kids Edition",
            Device::KindleOasis3WiFi32GBChampagne => "Champagne Kindle Oasis 3 (2019) WiFi (32GB)",
            Device::KindleOasis3WiFi4G32GBJapan => "Kindle Oasis 3 (2019) WiFi+4G (32GB) Japan",
            Device::KindleOasis3WiFi4G32GBIndia => "Kindle Oasis 3 (2019) WiFi+4G (32GB) India",
            Device::KindleOasis3WiFi4G32GB => "Kindle Oasis 3 (2019) WiFi+4G (32GB)",
            Device::KindleOasis3WiFi32GB => "Kindle Oasis 3 (2019) WiFi (32GB)",
            Device::KindleOasis3WiFi8GB => "Kindle Oasis 3 (2019) WiFi (8GB)",
            Device::KindlePaperWhite5SignatureEdition => "Kindle PaperWhite 5 Signature Edition (2021)",
            Device::KindlePaperWhite5Unknown_1Q0 => "Kindle PaperWhite 5 (2011) (Unknown Variant 1Q0)",
            Device::KindlePaperWhite5 => "Kindle PaperWhite 5 (2021)",
            Device::KindlePaperWhite5Unknown_1VD => "Kindle PaperWhite 5 (2021) (Unknown Variant 1VD)",
            Device::KindlePaperWhite5SE_219 => "Kindle PaperWhite 5 Signature Edition (2021) (Variant 219)",
            Device::KindlePaperWhite5_21A => "Kindle PaperWhite 5 (2021) (Variant 21A)",
            Device::KindlePaperWhite5SE_2BH => "Kindle PaperWhite 5 Signature Edition (2021) (Variant 2BH)",
            Device::KindlePaperWhite5Unknown_2BJ => "Kindle PaperWhite 5 (2021) (Unknown Variant 2BJ)",
            Device::KindlePaperWhite5_2DK => "Kindle PaperWhite 5 (2021) (Variant 2DK)",
            Device::KindleBasic4Unknown_22D => "Kindle Basic 4 (2022) (Unknown Variant 22D)",
            Device::KindleBasic4Unknown_25T => "Kindle Basic 4 (2022) (Unknown Variant 25T)",
            Device::KindleBasic4Unknown_23A => "Kindle Basic 4 (2022) (Unknown Variant 23A)",
            Device::KindleBasic4_2AQ => "Kindle Basic 4 (2022) (Variant 2AQ)",
            Device::KindleBasic4_2AP => "Kindle Basic 4 (2022) (Variant 2AP)",
            Device::KindleBasic4Unknown_1XH => "Kindle Basic 4 (2022) (Unknown Variant 1XH)",
            Device::KindleBasic4Unknown_22C => "Kindle Basic 4 (2022) (Unknown Variant 22C)",
            Device::KindleScribeUnknown_27J => "Kindle Scribe (Unknown Variant 27J)",
            Device::KindleScribeUnknown_2BL => "Kindle Scribe (Unknown Variant 2BL)",
            Device::KindleScribeUnknown_263 => "Kindle Scribe (Unknown Variant 263)",
            Device::KindleScribe16GB_227 => "Kindle Scribe (16GB) (Variant 227)",
            Device::KindleScribeUnknown_2BM => "Kindle Scribe (Unknown Variant 2BM)",
            Device::KindleScribe_23L => "Kindle Scribe (Variant 23L)",
            Device::KindleScribe64GB_23M => "Kindle Scribe (64GB) (Variant 23M)",
            Device::KindleScribeUnknown_270 => "Kindle Scribe (Unknown Variant 270)",
            Device::KindleBasic5Unknown_3L5 => "Kindle Basic 5 (2024) (Unknown Variant 3L5)",
            Device::KindleBasic5Unknown_3L6 => "Kindle Basic 5 (2024) (Unknown Variant 3L6)",
            Device::KindleBasic5Unknown_3L4 => "Kindle Basic 5 (2024) (Unknown Variant 3L4)",
            Device::KindleBasic5Unknown_3L3 => "Kindle Basic 5 (2024) (Unknown Variant 3L3)",
            Device::KindleBasic5Unknown_A89 => "Kindle Basic 5 (2024) (Unknown Variant A89)",
            Device::KindleBasic5Unknown_3L2 => "Kindle Basic 5 (2024) (Unknown Variant 3L2)",
            Device::KindleBasic5Unknown_3KM => "Kindle Basic 5 (2024) (Unknown Variant 3KM)",
            Device::KindlePaperWhite6Unknown_349 => "Kindle PaperWhite 6 (2024) (Unknown Variant 349)",
            Device::KindlePaperWhite6Unknown_346 => "Kindle PaperWhite 6 (2024) (Unknown Variant 346)",
            Device::KindlePaperWhite6Unknown_33X => "Kindle PaperWhite 6 (2024) (Unknown Variant 33X)",
            Device::KindlePaperWhite6Unknown_33W => "Kindle PaperWhite 6 (2024) (Unknown Variant 33W)",
            Device::KindlePaperWhite6Unknown_3HA => "Kindle PaperWhite 6 (2024) (Unknown Variant 3HA)",
            Device::KindlePaperWhite6Unknown_3H5 => "Kindle PaperWhite 6 (2024) (Unknown Variant 3H5)",
            Device::KindlePaperWhite6Unknown_3H3 => "Kindle PaperWhite 6 (2024) (Unknown Variant 3H3)",
            Device::KindlePaperWhite6Unknown_3H8 => "Kindle PaperWhite 6 (2024) (Unknown Variant 3H8)",
            Device::KindlePaperWhite6Unknown_3J5 => "Kindle PaperWhite 6 (2024) (Unknown Variant 3J5)",
            Device::KindlePaperWhite6Unknown_3JS => "Kindle PaperWhite 6 (2024) (Unknown Variant 3JS)",
            Device::KindleScribe2Unknown_3V0 => "Kindle Scribe 2 (2024) (Unknown Variant 3V0)",
            Device::KindleScribe2Unknown_3V1 => "Kindle Scribe 2 (2024) (Unknown Variant 3V1)",
            Device::KindleScribe2Unknown_3X5 => "Kindle Scribe 2 (2024) (Unknown Variant 3X5)",
            Device::KindleScribe2Unknown_3UV => "Kindle Scribe 2 (2024) (Unknown Variant 3UV)",
            Device::KindleScribe2Unknown_3X4 => "Kindle Scribe 2 (2024) (Unknown Variant 3X4)",
            Device::KindleScribe2Unknown_3X3 => "Kindle Scribe 2 (2024) (Unknown Variant 3X3)",
            Device::KindleScribe2Unknown_41E => "Kindle Scribe 2 (2024) (Unknown Variant 41E)",
            Device::KindleScribe2Unknown_41D => "Kindle Scribe 2 (2024) (Unknown Variant 41D)",
            Device::KindleColorSoftUnknown_3H9 => "Kindle ColorSoft (2024) (Unknown Variant 3H9)",
            Device::KindleColorSoftUnknown_3H4 => "Kindle ColorSoft (2024) (Unknown Variant 3H4)",
            Device::KindleColorSoftUnknown_3HB => "Kindle ColorSoft (2024) (Unknown Variant 3HB)",
            Device::KindleColorSoftUnknown_3H6 => "Kindle ColorSoft (2024) (Unknown Variant 3H6)",
            Device::KindleColorSoftUnknown_3H2 => "Kindle ColorSoft (2024) (Unknown Variant 3H2)",
            Device::KindleColorSoftUnknown_34X => "Kindle ColorSoft (2024) (Unknown Variant 34X)",
            Device::KindleColorSoftUnknown_3H7 => "Kindle ColorSoft (2024) (Unknown Variant 3H7)",
            Device::KindleColorSoftUnknown_3JT => "Kindle ColorSoft (2024) (Unknown Variant 3JT)",
            Device::KindleColorSoftUnknown_3J6 => "Kindle ColorSoft (2024) (Unknown Variant 3J6)",
            Device::KindleColorSoftUnknown_456 => "Kindle ColorSoft (2024) (Unknown Variant 456)",
            Device::KindleColorSoftUnknown_455 => "Kindle ColorSoft (2024) (Unknown Variant 455)",
            Device::KindleColorSoftUnknown_4EP => "Kindle ColorSoft (2024) (Unknown Variant 4EP)",
            Device::Unknown => "Unknown",
        }
    }

    /// The descriptive label of this device model, as an owned string.
    pub fn to_string(&self) -> (text: String)
        ensures
            text@ == self.label(),
    {
        self.name().to_owned()
    }
}

impl Default for Device {
    fn default() -> (fallback: Device)
        ensures
            fallback == Device::Unknown,
    {
        Device::Unknown
    }
}
/// A hardware platform, identified in recovery containers by a 32-bit code.
#[derive(Debug, Clone, Copy, PartialEq, Eq, Structural)]
pub enum Platform {
    PlatUnspecified,
    MarioDeprecated,
    Luigi,
    Banjo,
    Yoshi,
    YoshimeProto,
    Yoshime,
    Wario,
    Duet,
    Heisenberg,
    Zelda,
    Rex,
    Bellatrix,
    Bellatrix3,
    Bellatrix4,
    Unknown,
}

impl Platform {
    /// The platform that the numeric code `code` stands for, if any.
    pub open spec fn with_code(code: int) -> Option<Platform> {
        if code == 0x00 {
            Some(Platform::PlatUnspecified)
        } else if code == 0x01 {
            Some(Platform::MarioDeprecated)
        } else if code == 0x02 {
            Some(Platform::Luigi)
        } else if code == 0x03 {
            Some(Platform::Banjo)
        } else if code == 0x04 {
            Some(Platform::Yoshi)
        } else if code == 0x05 {
            Some(Platform::YoshimeProto)
        } else if code == 0x06 {
            Some(Platform::Yoshime)
        } else if code == 0x07 {
            Some(Platform::Wario)
        } else if code == 0x08 {
            Some(Platform::Duet)
        } else if code == 0x09 {
            Some(Platform::Heisenberg)
        } else if code == 0x0A {
            Some(Platform::Zelda)
        } else if code == 0x0B {
            Some(Platform::Rex)
        } else if code == 0x0C {
            Some(Platform::Bellatrix)
        } else if code == 0x0D {
            Some(Platform::Bellatrix3)
        } else if code == 0x0E {
            Some(Platform::Bellatrix4)
        } else if code == 0x0F {
            Some(Platform::Unknown)
        } else {
            None
        }
    }

    /// The platform for `code`, with `Unknown` standing in for every code that
    /// names none.
    pub open spec fn lookup(code: int) -> Platform {
        match Self::with_code(code) {
            Some(found) => found,
            None => Platform::Unknown,
        }
    }

    /// The descriptive label of this platform.
    pub open spec fn label(self) -> Seq<char> {
        match self {
            Platform::PlatUnspecified => "Unspecified"@,
            Platform::MarioDeprecated => "Mario (Deprecated)"@,
            Platform::Luigi => "Luigi"@,
            Platform::Banjo => "Banjo"@,
            Platform::Yoshi => "Yoshi"@,
            Platform::YoshimeProto => "Yoshime (Prototype)"@,
            Platform::Yoshime => "Yoshime (Yoshime3)"@,
            Platform::Wario => "Wario"@,
            Platform::Duet => "Duet"@,
            Platform::Heisenberg => "Heisenberg"@,
            Platform::Zelda => "Zelda"@,
            Platform::Rex => "Rex"@,
            Platform::Bellatrix => "Bellatrix"@,
            Platform::Bellatrix3 => "Bellatrix3"@,
            Platform::Bellatrix4 => "Bellatrix4"@,
            Platform::Unknown => "Unknown"@,
        }
    }

    /// Looks a numeric code up; `None` when no platform carries it.
    pub fn from_repr(code: usize) -> (found: Option<Platform>)
        ensures
            found == Self::with_code(code as int),
    {
        match code {
            0x00 => Some(Platform::PlatUnspecified),
            0x01 => Some(Platform::MarioDeprecated),
            0x02 => Some(Platform::Luigi),
            0x03 => Some(Platform::Banjo),
            0x04 => Some(Platform::Yoshi),
            0x05 => Some(Platform::YoshimeProto),
            0x06 => Some(Platform::Yoshime),
            0x07 => Some(Platform::Wario),
            0x08 => Some(Platform::Duet),
            0x09 => Some(Platform::Heisenberg),
            0x0A => Some(Platform::Zelda),
            0x0B => Some(Platform::Rex),
            0x0C => Some(Platform::Bellatrix),
            0x0D => Some(Platform::Bellatrix3),
            0x0E => Some(Platform::Bellatrix4),
            0x0F => Some(Platform::Unknown),
            _ => None,
        }
    }

    /// The descriptive label of this platform, as static text.
    pub fn name(&self) -> (text: &'static str)
        ensures
            text@ == self.label(),
    {
        match self {
            Platform::PlatUnspecified => "Unspecified",
            Platform::MarioDeprecated => "Mario (Deprecated)",
            Platform::Luigi => "Luigi",
            Platform::Banjo => "Banjo",
            Platform::Yoshi => "Yoshi",
            Platform::YoshimeProto => "Yoshime (Prototype)",
            Platform::Yoshime => "Yoshime (Yoshime3)",
            Platform::Wario => "Wario",
            Platform::Duet => "Duet",
            Platform::Heisenberg => "Heisenberg",
            Platform::Zelda => "Zelda",
            Platform::Rex => "Rex",
            Platform::Bellatrix => "Bellatrix",
            Platform::Bellatrix3 => "Bellatrix3",
            Platform::Bellatrix4 => "Bellatrix4",
            Platform::Unknown => "Unknown",
        }
    }

    /// The descriptive label of this platform, as an owned string.
    pub fn to_string(&self) -> (text: String)
        ensures
            text@ == self.label(),
    {
        self.name().to_owned()
    }
}

impl Default for Platform {
    fn default() -> (fallback: Platform)
        ensures
            fallback == Platform::Unknown,
    {
        Platform::Unknown
    }
}
} // verus!
