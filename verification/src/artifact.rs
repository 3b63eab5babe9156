//! The finished product: encoded bytes wrapped as a data URI, never longer
//! than the transport allows.

use vstd::prelude::*;
use vstd::string::StringExecFns;
use crate::error::ScreenshotError;
use crate::limits::{MAX_PAYLOAD_LEN, MAX_TEXT_LEN};

verus! {

/// The base64 text of a byte sequence, as `base64::encode` computes it with
/// the standard alphabet and padding.
pub uninterp spec fn base64_text(bytes: Seq<u8>) -> Seq<char>;

/// How long the padded base64 text of `n` bytes is: four characters for
/// every three bytes begun.
pub open spec fn text_len(n: nat) -> nat {
    4 * ((n + 2) / 3)
}

/// What every data URI handed out begins with.
pub open spec fn uri_prefix() -> Seq<char> {
    "data:image/jpeg;base64,"@
}

/// The data URI that carries `bytes` as a JPEG image.
pub open spec fn data_uri_of(bytes: Seq<u8>) -> Seq<char> {
    uri_prefix() + base64_text(bytes)
}

/// What an artifact holds.
pub struct ArtifactView {
    pub bytes: Seq<u8>,
    pub width: u32,
    pub height: u32,
    pub quality: u8,
    pub data_uri: Seq<char>,
}

/// An encoded image, the size and quality it was encoded at, and the data
/// URI that carries it.
#[derive(Debug)]
pub struct EncodedArtifact {
    pub bytes: Vec<u8>,
    pub width: u32,
    pub height: u32,
    pub quality: u8,
    pub data_uri: String,
}

impl View for EncodedArtifact {
    type V = ArtifactView;

    open spec fn view(&self) -> ArtifactView {
        ArtifactView {
            bytes: self.bytes@,
            width: self.width,
            height: self.height,
            quality: self.quality,
            data_uri: self.data_uri@,
        }
    }
}

impl ArtifactView {
    /// The URI carries the bytes, and its base64 part has the length that
    /// goes with them, which is within the ceiling.
    pub open spec fn well_formed(self) -> bool {
        &&& self.data_uri == data_uri_of(self.bytes)
        &&& self.data_uri.len() == uri_prefix().len() + text_len(self.bytes.len())
        &&& text_len(self.bytes.len()) <= MAX_TEXT_LEN
    }
}

/// What sealing `bytes` must give: the artifact, or the length of the text
/// that would have been too long.
pub open spec fn sealed(bytes: Seq<u8>, width: u32, height: u32, quality: u8) -> Result<
    ArtifactView,
    nat,
> {
    if text_len(bytes.len()) > MAX_TEXT_LEN {
        Err(text_len(bytes.len()))
    } else {
        Ok(ArtifactView { bytes, width, height, quality, data_uri: data_uri_of(bytes) })
    }
}

/// `r` is what `expected` asks for.
pub open spec fn is_sealed_as(
    r: Result<EncodedArtifact, ScreenshotError>,
    expected: Result<ArtifactView, nat>,
) -> bool {
    match expected {
        Ok(artifact) => r matches Ok(a) && a@ == artifact,
        Err(len) => r matches Err(e) && e == (ScreenshotError::TooLarge { text_len: len as u128 }),
    }
}

/// Calls `base64::encode`. Trusted: the text depends on the bytes alone and
/// has four characters for every three bytes begun.
#[verifier::external_body]
#[allow(deprecated)]
pub(crate) fn base64_encode(bytes: &Vec<u8>) -> (r: String)
    requires
        text_len(bytes@.len()) <= usize::MAX,
    ensures
        r@ == base64_text(bytes@),
        r@.len() == text_len(bytes@.len()),
{
    base64::encode(bytes)
}

/// Length of the padded base64 text of `n` bytes.
pub fn encoded_text_len(n: usize) -> (r: u128)
    ensures
        r == text_len(n as nat),
{
    (n as u128 + 2) / 3 * 4
}

/// Tells whether the base64 text of `n` bytes would pass the ceiling.
pub fn exceeds_text_ceiling(n: usize) -> (r: bool)
    ensures
        r == (text_len(n as nat) > MAX_TEXT_LEN),
{
    n > MAX_PAYLOAD_LEN
}

/// Wraps encoded bytes as a data URI, unless their base64 text would be
/// longer than the ceiling.
pub fn seal(bytes: Vec<u8>, width: u32, height: u32, quality: u8) -> (r: Result<
    EncodedArtifact,
    ScreenshotError,
>)
    ensures
        is_sealed_as(r, sealed(bytes@, width, height, quality)),
        r matches Ok(a) ==> a@.well_formed(),
{
    let n = bytes.len();
    if exceeds_text_ceiling(n) {
        return Err(ScreenshotError::TooLarge { text_len: encoded_text_len(n) });
    }
    let text = base64_encode(&bytes);
    let data_uri = String::from_str("data:image/jpeg;base64,").concat(text.as_str());
    Ok(EncodedArtifact { bytes, width, height, quality, data_uri })
}

} // verus!
