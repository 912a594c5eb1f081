//! The container dispatcher and the signature envelope.
//!
//! A container begins with a four-byte magic tag. The tag selects the layout
//! of what follows and plays no further part in decoding. One tag introduces a
//! signature envelope, which wraps another complete container; this is the
//! only place where containers nest.

use vstd::prelude::*;
use crate::error::{refines, settled, DecodeError, ErrorKind};
use crate::ota::{OtaV1, OtaV1View, OtaV2, OtaV2View};
use crate::reader::{
    fits, lemma_extension_run, read_bytes, read_u32_le, skip, take, u32_le_at,
};
use crate::recovery::{RecoveryV1, RecoveryV1View, RecoveryV2, RecoveryV2View};
use crate::text::ascii_text;

verus! {

/// The deepest nesting of signature envelopes that `UpdateBundle::decode`
/// follows.
pub const MAX_ENVELOPE_DEPTH: u32 = 16;

/// A known magic tag.
#[derive(Debug, Clone, Copy, PartialEq, Eq, Structural)]
pub enum Magic {
    /// `SP01`: a signature envelope around another container.
    Sp01,
    /// `FC02`: an update record of the first layout.
    Fc02,
    /// `FD03`: an update record of the first layout.
    Fd03,
    /// `FC04`: an update record of the second layout.
    Fc04,
    /// `FD04`: an update record of the second layout.
    Fd04,
    /// `FL01`: an update record of the second layout.
    Fl01,
    /// `FB01`: a recovery record of the first layout.
    Fb01,
    /// `FB02`: a recovery record of the first layout.
    Fb02,
    /// `FB03`: a recovery record of the second layout.
    Fb03,
}

impl Magic {
    /// The four bytes that spell this tag in a stream.
    pub open spec fn bytes(self) -> Seq<u8> {
        match self {
            Magic::Sp01 => seq![0x53u8, 0x50u8, 0x30u8, 0x31u8],
            Magic::Fc02 => seq![0x46u8, 0x43u8, 0x30u8, 0x32u8],
            Magic::Fd03 => seq![0x46u8, 0x44u8, 0x30u8, 0x33u8],
            Magic::Fc04 => seq![0x46u8, 0x43u8, 0x30u8, 0x34u8],
            Magic::Fd04 => seq![0x46u8, 0x44u8, 0x30u8, 0x34u8],
            Magic::Fl01 => seq![0x46u8, 0x4Cu8, 0x30u8, 0x31u8],
            Magic::Fb01 => seq![0x46u8, 0x42u8, 0x30u8, 0x31u8],
            Magic::Fb02 => seq![0x46u8, 0x42u8, 0x30u8, 0x32u8],
            Magic::Fb03 => seq![0x46u8, 0x42u8, 0x30u8, 0x33u8],
        }
    }

    /// This tag as text.
    pub open spec fn text(self) -> Seq<char> {
        match self {
            Magic::Sp01 => "SP01"@,
            Magic::Fc02 => "FC02"@,
            Magic::Fd03 => "FD03"@,
            Magic::Fc04 => "FC04"@,
            Magic::Fd04 => "FD04"@,
            Magic::Fl01 => "FL01"@,
            Magic::Fb01 => "FB01"@,
            Magic::Fb02 => "FB02"@,
            Magic::Fb03 => "FB03"@,
        }
    }

    /// A short description of the kind of container that this tag opens.
    pub open spec fn blurb(self) -> Seq<char> {
        match self {
            Magic::Fb01 | Magic::Fb02 => "(Fullbin)"@,
            Magic::Fb03 => "(Fullbin [OTA?, fwo?])"@,
            Magic::Fc02 | Magic::Fc04 => "(OTA [ota])"@,
            Magic::Fd03 | Magic::Fd04 => "(Versionless [vls])"@,
            Magic::Fl01 => "(Language [lang])"@,
            Magic::Sp01 => "(Signing Envelope)"@,
        }
    }

    /// Whether `tag` is the four bytes `a`, `b`, `c`, `d`.
    pub open spec fn spells(tag: Seq<u8>, a: u8, b: u8, c: u8, d: u8) -> bool {
        tag.len() == 4 && tag[0] == a && tag[1] == b && tag[2] == c && tag[3] == d
    }

    /// The known tag that the bytes `tag` spell, if any. The match is exact
    /// and case-sensitive.
    pub open spec fn of_tag(tag: Seq<u8>) -> Option<Magic> {
        if Self::spells(tag, 0x53, 0x50, 0x30, 0x31) {
            Some(Magic::Sp01)
        } else if Self::spells(tag, 0x46, 0x43, 0x30, 0x32) {
            Some(Magic::Fc02)
        } else if Self::spells(tag, 0x46, 0x44, 0x30, 0x33) {
            Some(Magic::Fd03)
        } else if Self::spells(tag, 0x46, 0x43, 0x30, 0x34) {
            Some(Magic::Fc04)
        } else if Self::spells(tag, 0x46, 0x44, 0x30, 0x34) {
            Some(Magic::Fd04)
        } else if Self::spells(tag, 0x46, 0x4C, 0x30, 0x31) {
            Some(Magic::Fl01)
        } else if Self::spells(tag, 0x46, 0x42, 0x30, 0x31) {
            Some(Magic::Fb01)
        } else if Self::spells(tag, 0x46, 0x42, 0x30, 0x32) {
            Some(Magic::Fb02)
        } else if Self::spells(tag, 0x46, 0x42, 0x30, 0x33) {
            Some(Magic::Fb03)
        } else {
            None
        }
    }

    /// Every known tag is recognised from its own four bytes, and only
    /// from them: no two tags are spelt alike.
    pub proof fn lemma_of_tag_bytes(self, tag: Seq<u8>)
        ensures
            self.bytes().len() == 4,
            Self::of_tag(tag) == Some(self) <==> tag == self.bytes(),
    {
        if Self::of_tag(tag) == Some(self) {
            assert(tag =~= self.bytes());
        }
    }

    /// The text of a tag is its four bytes read as ASCII.
    pub proof fn lemma_text_spells_bytes(self)
        ensures
            self.text() == ascii_text(self.bytes()),
    {
        reveal_strlit("SP01");
        reveal_strlit("FC02");
        reveal_strlit("FD03");
        reveal_strlit("FC04");
        reveal_strlit("FD04");
        reveal_strlit("FL01");
        reveal_strlit("FB01");
        reveal_strlit("FB02");
        reveal_strlit("FB03");
    }

    /// Recognises the four bytes of a tag.
    pub fn from_tag(tag: &[u8; 4]) -> (found: Option<Magic>)
        ensures
            found == Self::of_tag(tag@),
    {
        let a: u8 = tag[0];
        let b: u8 = tag[1];
        let c: u8 = tag[2];
        let d: u8 = tag[3];
        if a == 0x53 && b == 0x50 && c == 0x30 && d == 0x31 {
            Some(Magic::Sp01)
        } else if a == 0x46 && c == 0x30 {
            if b == 0x43 && d == 0x32 {
                Some(Magic::Fc02)
            } else if b == 0x44 && d == 0x33 {
                Some(Magic::Fd03)
            } else if b == 0x43 && d == 0x34 {
                Some(Magic::Fc04)
            } else if b == 0x44 && d == 0x34 {
                Some(Magic::Fd04)
            } else if b == 0x4C && d == 0x31 {
                Some(Magic::Fl01)
            } else if b == 0x42 && d == 0x31 {
                Some(Magic::Fb01)
            } else if b == 0x42 && d == 0x32 {
                Some(Magic::Fb02)
            } else if b == 0x42 && d == 0x33 {
                Some(Magic::Fb03)
            } else {
                None
            }
        } else {
            None
        }
    }

    /// This tag as static text.
    pub fn as_str(&self) -> (text: &'static str)
        ensures
            text@ == self.text(),
    {
        match self {
            Magic::Sp01 => "SP01",
            Magic::Fc02 => "FC02",
            Magic::Fd03 => "FD03",
            Magic::Fc04 => "FC04",
            Magic::Fd04 => "FD04",
            Magic::Fl01 => "FL01",
            Magic::Fb01 => "FB01",
            Magic::Fb02 => "FB02",
            Magic::Fb03 => "FB03",
        }
    }

    /// A short description of the kind of container that this tag opens.
    pub fn description(&self) -> (text: &'static str)
        ensures
            text@ == self.blurb(),
    {
        match self {
            Magic::Fb01 | Magic::Fb02 => "(Fullbin)",
            Magic::Fb03 => "(Fullbin [OTA?, fwo?])",
            Magic::Fc02 | Magic::Fc04 => "(OTA [ota])",
            Magic::Fd03 | Magic::Fd04 => "(Versionless [vls])",
            Magic::Fl01 => "(Language [lang])",
            Magic::Sp01 => "(Signing Envelope)",
        }
    }
}

/// A signature block in front of another complete container.
///
/// The signature is recorded, not checked.
#[derive(Debug)]
pub struct SignatureEnvelope {
    /// The number of the certificate whose key made the signature.
    pub cert_num: u32,
    /// The signature: 256 bytes for certificate 2, 128 bytes for any other.
    pub signature: Vec<u8>,
    /// The container that the envelope wraps.
    pub wrapped_bundle: Box<UpdateBundle>,
}

/// One decoded container.
///
/// The variant records the magic tag that opened the container; tags that
/// share a layout share the type of their content.
#[derive(Debug)]
pub enum UpdateBundle {
    /// Tag `SP01`.
    Signed(Box<SignatureEnvelope>),
    /// Tag `FC02`.
    OtaV1Fc02(OtaV1),
    /// Tag `FD03`.
    OtaV1Fd03(OtaV1),
    /// Tag `FC04`.
    OtaV2Fc04(OtaV2),
    /// Tag `FD04`.
    OtaV2Fd04(OtaV2),
    /// Tag `FL01`.
    OtaV2Fl01(OtaV2),
    /// Tag `FB01`.
    RecoveryV1Fb01(RecoveryV1),
    /// Tag `FB02`.
    RecoveryV1Fb02(RecoveryV1),
    /// Tag `FB03`.
    RecoveryV2Fb03(RecoveryV2),
}

/// The mathematical content of a `SignatureEnvelope`.
pub struct SignatureEnvelopeView {
    pub cert_num: u32,
    pub signature: Seq<u8>,
    pub wrapped_bundle: Box<UpdateBundleView>,
}

/// The mathematical content of an `UpdateBundle`.
pub enum UpdateBundleView {
    Signed(SignatureEnvelopeView),
    OtaV1Fc02(OtaV1View),
    OtaV1Fd03(OtaV1View),
    OtaV2Fc04(OtaV2View),
    OtaV2Fd04(OtaV2View),
    OtaV2Fl01(OtaV2View),
    RecoveryV1Fb01(RecoveryV1View),
    RecoveryV1Fb02(RecoveryV1View),
    RecoveryV2Fb03(RecoveryV2View),
}

/// The content of an envelope, with the wrapped container viewed in turn.
pub open spec fn envelope_view(envelope: SignatureEnvelope) -> SignatureEnvelopeView
    decreases envelope,
{
    SignatureEnvelopeView {
        cert_num: envelope.cert_num,
        signature: envelope.signature@,
        wrapped_bundle: Box::new(bundle_view(*envelope.wrapped_bundle)),
    }
}

/// The content of a container, variant by variant.
pub open spec fn bundle_view(bundle: UpdateBundle) -> UpdateBundleView
    decreases bundle,
{
    match bundle {
        UpdateBundle::Signed(envelope) => UpdateBundleView::Signed(envelope_view(*envelope)),
        UpdateBundle::OtaV1Fc02(record) => UpdateBundleView::OtaV1Fc02(record@),
        UpdateBundle::OtaV1Fd03(record) => UpdateBundleView::OtaV1Fd03(record@),
        UpdateBundle::OtaV2Fc04(record) => UpdateBundleView::OtaV2Fc04(record@),
        UpdateBundle::OtaV2Fd04(record) => UpdateBundleView::OtaV2Fd04(record@),
        UpdateBundle::OtaV2Fl01(record) => UpdateBundleView::OtaV2Fl01(record@),
        UpdateBundle::RecoveryV1Fb01(record) => UpdateBundleView::RecoveryV1Fb01(record@),
        UpdateBundle::RecoveryV1Fb02(record) => UpdateBundleView::RecoveryV1Fb02(record@),
        UpdateBundle::RecoveryV2Fb03(record) => UpdateBundleView::RecoveryV2Fb03(record@),
    }
}

impl View for SignatureEnvelope {
    type V = SignatureEnvelopeView;

    open spec fn view(&self) -> SignatureEnvelopeView {
        envelope_view(*self)
    }
}

impl View for UpdateBundle {
    type V = UpdateBundleView;

    open spec fn view(&self) -> UpdateBundleView {
        bundle_view(*self)
    }
}

impl UpdateBundleView {
    /// The magic tag that opened this container.
    pub open spec fn magic(self) -> Magic {
        match self {
            UpdateBundleView::Signed(_) => Magic::Sp01,
            UpdateBundleView::OtaV1Fc02(_) => Magic::Fc02,
            UpdateBundleView::OtaV1Fd03(_) => Magic::Fd03,
            UpdateBundleView::OtaV2Fc04(_) => Magic::Fc04,
            UpdateBundleView::OtaV2Fd04(_) => Magic::Fd04,
            UpdateBundleView::OtaV2Fl01(_) => Magic::Fl01,
            UpdateBundleView::RecoveryV1Fb01(_) => Magic::Fb01,
            UpdateBundleView::RecoveryV1Fb02(_) => Magic::Fb02,
            UpdateBundleView::RecoveryV2Fb03(_) => Magic::Fb03,
        }
    }
}

/// The outcome `outcome` of decoding a layout, with its value wrapped by
/// `wrap`; a failure stays as it is.
pub open spec fn wrapped<A, B>(
    outcome: Result<(A, int), DecodeError>,
    wrap: spec_fn(A) -> B,
) -> Result<(B, int), DecodeError> {
    match outcome {
        Ok((value, end)) => Ok((wrap(value), end)),
        Err(e) => Err(e),
    }
}

impl SignatureEnvelope {
    /// The length of the signature that goes with the certificate `cert_num`.
    pub open spec fn signature_len(cert_num: u32) -> int {
        if cert_num == 2 {
            256
        } else {
            128
        }
    }

    /// The label of the key that the certificate number stands for.
    pub open spec fn cert_label(cert_num: u32) -> Seq<char> {
        if cert_num == 0 {
            "pubdevkey01.pem (Developer)"@
        } else if cert_num == 1 {
            "pubprodkey01.pem (Official 1K)"@
        } else if cert_num == 2 {
            "pubprodkey02.pem (Official 2K)"@
        } else {
            "Unknown"@
        }
    }

    /// The outcome of decoding an envelope whose body starts at `at`, when
    /// the container it wraps may open `depth` further envelopes.
    ///
    /// The body is a little-endian certificate number, 56 bytes that are
    /// skipped by a seek, the signature, and then the wrapped container.
    pub open spec fn spec_parse(data: Seq<u8>, at: int, depth: nat) -> Result<
        (SignatureEnvelopeView, int),
        DecodeError,
    >
        decreases depth, 1nat,
    {
        let cert_num = u32_le_at(data, at);
        let sig_len = Self::signature_len(cert_num);
        if !fits(data, at, 4) {
            Err(DecodeError::unexpected_end(at))
        } else if !fits(data, at, 60) {
            Err(DecodeError::seek_out_of_range(at + 4))
        } else if !fits(data, at + 60, sig_len) {
            Err(DecodeError::unexpected_end(at + 60))
        } else {
            wrapped(
                UpdateBundle::spec_parse(data, at + 60 + sig_len, depth),
                |inner: UpdateBundleView|
                    SignatureEnvelopeView {
                        cert_num,
                        signature: data.subrange(at + 60, at + 60 + sig_len),
                        wrapped_bundle: Box::new(inner),
                    },
            )
        }
    }

    /// An envelope that decodes ends inside the stream, after its start:
    /// decoding moves strictly forward.
    pub proof fn lemma_parse_in_bounds(data: Seq<u8>, at: int, depth: nat)
        requires
            Self::spec_parse(data, at, depth) is Ok,
        ensures
            at < Self::spec_parse(data, at, depth).unwrap().1 <= data.len(),
        decreases depth, 1nat,
    {
        let sig_len = Self::signature_len(u32_le_at(data, at));
        UpdateBundle::lemma_parse_in_bounds(data, at + 60 + sig_len, depth);
    }

    /// An outcome that is settled stays as it is whatever follows the
    /// stream.
    pub proof fn lemma_extension(data: Seq<u8>, more: Seq<u8>, at: int, depth: nat)
        requires
            settled(Self::spec_parse(data, at, depth)),
        ensures
            Self::spec_parse(data + more, at, depth) == Self::spec_parse(data, at, depth),
        decreases depth, 1nat,
    {
        let sig_len = Self::signature_len(u32_le_at(data, at));
        lemma_extension_run(data, more, at + 60, sig_len);
        UpdateBundle::lemma_extension(data, more, at + 60 + sig_len, depth);
    }

    /// An envelope that decodes holds the certificate number stored at its
    /// start and a signature of the length that goes with that number.
    pub proof fn lemma_signature_len(data: Seq<u8>, at: int, depth: nat)
        requires
            Self::spec_parse(data, at, depth) is Ok,
        ensures
            Self::spec_parse(data, at, depth).unwrap().0.cert_num == u32_le_at(data, at),
            Self::spec_parse(data, at, depth).unwrap().0.signature.len() == Self::signature_len(
                u32_le_at(data, at),
            ),
    {
    }

    /// Decodes the envelope whose body starts at `pos`. The container it
    /// wraps may open `depth` further envelopes.
    pub fn parse(data: &[u8], pos: usize, depth: u32) -> (r: Result<
        (SignatureEnvelope, usize),
        DecodeError,
    >)
        ensures
            refines(r, Self::spec_parse(data@, pos as int, depth as nat)),
            r matches Ok((_, next)) ==> pos < next <= data@.len(),
        decreases depth, 1nat,
    {
        let (cert_num, at) = read_u32_le(data, pos)?;
        let at = skip(data, at, 56)?;
        let sig_size: usize = if cert_num == 2 {
            256
        } else {
            128
        };
        let (signature, at) = read_bytes(data, at, sig_size)?;
        let (inner, end) = UpdateBundle::parse(data, at, depth)?;
        Ok((SignatureEnvelope { cert_num, signature, wrapped_bundle: Box::new(inner) }, end))
    }

    /// The label of the key that the certificate number of this envelope
    /// stands for.
    pub fn cert_name(&self) -> (text: &'static str)
        ensures
            text@ == Self::cert_label(self.cert_num),
    {
        match self.cert_num {
            0 => "pubdevkey01.pem (Developer)",
            1 => "pubprodkey01.pem (Official 1K)",
            2 => "pubprodkey02.pem (Official 2K)",
            _ => "Unknown",
        }
    }
}

impl UpdateBundle {
    /// The outcome of decoding a container whose magic tag starts at `at`,
    /// when at most `depth` nested envelopes may be opened.
    ///
    /// Four bytes are read as the tag. A tag that is not known fails the
    /// decode. The envelope tag hands over to the envelope decoder, or fails
    /// when no further envelope may be opened. Every other tag hands over to
    /// the decoder of its layout, and the record keeps the tag in its variant.
    pub open spec fn spec_parse(data: Seq<u8>, at: int, depth: nat) -> Result<
        (UpdateBundleView, int),
        DecodeError,
    >
        decreases depth, 0nat,
    {
        let tag = data.subrange(at, at + 4);
        let body = at + 4;
        if !fits(data, at, 4) {
            Err(DecodeError::unexpected_end(at))
        } else {
            match Magic::of_tag(tag) {
                None => Err(DecodeError::unknown_magic(tag, at)),
                Some(Magic::Sp01) => if depth == 0 {
                    Err(DecodeError::recursion_limit(at))
                } else {
                    wrapped(
                        SignatureEnvelope::spec_parse(data, body, (depth - 1) as nat),
                        |v: SignatureEnvelopeView| UpdateBundleView::Signed(v),
                    )
                },
                Some(Magic::Fc02) => wrapped(
                    OtaV1::spec_parse(data, body),
                    |v: OtaV1View| UpdateBundleView::OtaV1Fc02(v),
                ),
                Some(Magic::Fd03) => wrapped(
                    OtaV1::spec_parse(data, body),
                    |v: OtaV1View| UpdateBundleView::OtaV1Fd03(v),
                ),
                Some(Magic::Fc04) => wrapped(
                    OtaV2::spec_parse(data, body),
                    |v: OtaV2View| UpdateBundleView::OtaV2Fc04(v),
                ),
                Some(Magic::Fd04) => wrapped(
                    OtaV2::spec_parse(data, body),
                    |v: OtaV2View| UpdateBundleView::OtaV2Fd04(v),
                ),
                Some(Magic::Fl01) => wrapped(
                    OtaV2::spec_parse(data, body),
                    |v: OtaV2View| UpdateBundleView::OtaV2Fl01(v),
                ),
                Some(Magic::Fb01) => wrapped(
                    RecoveryV1::spec_parse(data, body),
                    |v: RecoveryV1View| UpdateBundleView::RecoveryV1Fb01(v),
                ),
                Some(Magic::Fb02) => wrapped(
                    RecoveryV1::spec_parse(data, body),
                    |v: RecoveryV1View| UpdateBundleView::RecoveryV1Fb02(v),
                ),
                Some(Magic::Fb03) => wrapped(
                    RecoveryV2::spec_parse(data, body),
                    |v: RecoveryV2View| UpdateBundleView::RecoveryV2Fb03(v),
                ),
            }
        }
    }

    /// The outcome of decoding a whole stream: one container from its first
    /// byte on, with the default limit on nested envelopes.
    pub open spec fn spec_decode(data: Seq<u8>) -> Result<(UpdateBundleView, int), DecodeError> {
        Self::spec_parse(data, 0, MAX_ENVELOPE_DEPTH as nat)
    }

    /// A container that decodes ends inside the stream, after its tag:
    /// decoding moves strictly forward.
    pub proof fn lemma_parse_in_bounds(data: Seq<u8>, at: int, depth: nat)
        requires
            Self::spec_parse(data, at, depth) is Ok,
        ensures
            at + 4 <= Self::spec_parse(data, at, depth).unwrap().1 <= data.len(),
        decreases depth, 0nat,
    {
        match Magic::of_tag(data.subrange(at, at + 4)) {
            Some(Magic::Sp01) => {
                SignatureEnvelope::lemma_parse_in_bounds(data, at + 4, (depth - 1) as nat);
            },
            Some(Magic::Fc04) | Some(Magic::Fd04) | Some(Magic::Fl01) => {
                OtaV2::lemma_parse_in_bounds(data, at + 4);
            },
            _ => {},
        }
    }

    /// An outcome that is settled stays as it is whatever follows the
    /// stream: a container that decodes is the same container, ending at the
    /// same position, and an unknown tag or an envelope too many is met in the
    /// same place.
    pub proof fn lemma_extension(data: Seq<u8>, more: Seq<u8>, at: int, depth: nat)
        requires
            settled(Self::spec_parse(data, at, depth)),
        ensures
            Self::spec_parse(data + more, at, depth) == Self::spec_parse(data, at, depth),
        decreases depth, 0nat,
    {
        lemma_extension_run(data, more, at, 4);
        match Magic::of_tag(data.subrange(at, at + 4)) {
            None => {},
            Some(Magic::Sp01) => {
                if depth > 0 {
                    SignatureEnvelope::lemma_extension(data, more, at + 4, (depth - 1) as nat);
                }
            },
            Some(Magic::Fc02) | Some(Magic::Fd03) => {
                OtaV1::lemma_extension(data, more, at + 4);
            },
            Some(Magic::Fc04) | Some(Magic::Fd04) | Some(Magic::Fl01) => {
                OtaV2::lemma_fails_by_truncation(data, at + 4);
                OtaV2::lemma_extension(data, more, at + 4);
            },
            Some(Magic::Fb01) | Some(Magic::Fb02) => {
                RecoveryV1::lemma_extension(data, more, at + 4);
            },
            Some(Magic::Fb03) => {
                RecoveryV2::lemma_extension(data, more, at + 4);
            },
        }
    }

    /// The tag decides the variant: a container that decodes carries, as
    /// its magic, the tag that stands where the decode began.
    pub proof fn lemma_decoded_magic(data: Seq<u8>, at: int, depth: nat)
        requires
            Self::spec_parse(data, at, depth) is Ok,
        ensures
            Self::spec_parse(data, at, depth).unwrap().0.magic().bytes() == data.subrange(
                at,
                at + 4,
            ),
    {
    }

    /// A stream of fewer than four bytes holds no tag and does not decode.
    pub proof fn lemma_decode_needs_tag(data: Seq<u8>)
        requires
            data.len() < 4,
        ensures
            Self::spec_decode(data) == Err::<(UpdateBundleView, int), DecodeError>(
                DecodeError::unexpected_end(0),
            ),
    {
    }

    /// A stream that decodes has its header end inside it, after the tag.
    pub proof fn lemma_decode_in_bounds(data: Seq<u8>)
        requires
            Self::spec_decode(data) is Ok,
        ensures
            4 <= Self::spec_decode(data).unwrap().1 <= data.len(),
    {
        Self::lemma_parse_in_bounds(data, 0, MAX_ENVELOPE_DEPTH as nat);
    }

    /// The outcome of decoding a stream, once settled, stays as it is
    /// whatever follows the stream.
    pub proof fn lemma_decode_extension(data: Seq<u8>, more: Seq<u8>)
        requires
            settled(Self::spec_decode(data)),
        ensures
            Self::spec_decode(data + more) == Self::spec_decode(data),
    {
        Self::lemma_extension(data, more, 0, MAX_ENVELOPE_DEPTH as nat);
    }

    /// Decodes the container whose magic tag starts at `pos`, opening at
    /// most `depth` nested envelopes.
    pub fn parse(data: &[u8], pos: usize, depth: u32) -> (r: Result<
        (UpdateBundle, usize),
        DecodeError,
    >)
        ensures
            refines(r, Self::spec_parse(data@, pos as int, depth as nat)),
            r matches Ok((_, next)) ==> pos < next <= data@.len(),
        decreases depth, 0nat,
    {
        let (tag, body) = take(data, pos, 4)?;
        let tag: [u8; 4] = [tag[0], tag[1], tag[2], tag[3]];
        match Magic::from_tag(&tag) {
            None => Err(DecodeError { kind: ErrorKind::UnknownMagic(tag), offset: pos }),
            Some(Magic::Sp01) => {
                if depth == 0 {
                    return Err(
                        DecodeError { kind: ErrorKind::RecursionLimitExceeded, offset: pos },
                    );
                }
                let (envelope, end) = SignatureEnvelope::parse(data, body, depth - 1)?;
                Ok((UpdateBundle::Signed(Box::new(envelope)), end))
            },
            Some(Magic::Fc02) => {
                let (record, end) = OtaV1::parse(data, body)?;
                Ok((UpdateBundle::OtaV1Fc02(record), end))
            },
            Some(Magic::Fd03) => {
                let (record, end) = OtaV1::parse(data, body)?;
                Ok((UpdateBundle::OtaV1Fd03(record), end))
            },
            Some(Magic::Fc04) => {
                let (record, end) = OtaV2::parse(data, body)?;
                Ok((UpdateBundle::OtaV2Fc04(record), end))
            },
            Some(Magic::Fd04) => {
                let (record, end) = OtaV2::parse(data, body)?;
                Ok((UpdateBundle::OtaV2Fd04(record), end))
            },
            Some(Magic::Fl01) => {
                let (record, end) = OtaV2::parse(data, body)?;
                Ok((UpdateBundle::OtaV2Fl01(record), end))
            },
            Some(Magic::Fb01) => {
                let (record, end) = RecoveryV1::parse(data, body)?;
                Ok((UpdateBundle::RecoveryV1Fb01(record), end))
            },
            Some(Magic::Fb02) => {
                let (record, end) = RecoveryV1::parse(data, body)?;
                Ok((UpdateBundle::RecoveryV1Fb02(record), end))
            },
            Some(Magic::Fb03) => {
                let (record, end) = RecoveryV2::parse(data, body)?;
                Ok((UpdateBundle::RecoveryV2Fb03(record), end))
            },
        }
    }

    /// Decodes a whole stream: one container from its first byte on, with the
    /// default limit on nested envelopes. Also hands back the position at which
    /// the header ends and the payload begins.
    pub fn decode(data: &[u8]) -> (r: Result<(UpdateBundle, usize), DecodeError>)
        ensures
            refines(r, Self::spec_decode(data@)),
            r matches Ok((_, end)) ==> 0 < end <= data@.len(),
    {
        Self::parse(data, 0, MAX_ENVELOPE_DEPTH)
    }

    /// The magic tag that opened this container.
    pub fn magic(&self) -> (tag: Magic)
        ensures
            tag == self@.magic(),
    {
        match self {
            UpdateBundle::Signed(_) => Magic::Sp01,
            UpdateBundle::OtaV1Fc02(_) => Magic::Fc02,
            UpdateBundle::OtaV1Fd03(_) => Magic::Fd03,
            UpdateBundle::OtaV2Fc04(_) => Magic::Fc04,
            UpdateBundle::OtaV2Fd04(_) => Magic::Fd04,
            UpdateBundle::OtaV2Fl01(_) => Magic::Fl01,
            UpdateBundle::RecoveryV1Fb01(_) => Magic::Fb01,
            UpdateBundle::RecoveryV1Fb02(_) => Magic::Fb02,
            UpdateBundle::RecoveryV2Fb03(_) => Magic::Fb03,
        }
    }

    /// The magic tag that opened this container, as text.
    pub fn magic_str(&self) -> (text: &'static str)
        ensures
            text@ == self@.magic().text(),
    {
        self.magic().as_str()
    }

    /// A short description of the kind of this container.
    pub fn description(&self) -> (text: &'static str)
        ensures
            text@ == self@.magic().blurb(),
    {
        self.magic().description()
    }
}

} // verus!
