//! The adaptive compressor: one resize to the target width, then lower
//! quality, then smaller images, until the encoded bytes fit the budget or a
//! floor is reached.

use vstd::prelude::*;
use crate::artifact::{seal, sealed, ArtifactView, EncodedArtifact};
use crate::artifact::uri_prefix;
use crate::capture::{
    encode_jpeg,
    jpeg_bytes,
    jpeg_encodable,
    jpeg_refusal,
    resize,
    resized,
    Raster,
    RawCapture,
};
use crate::error::ScreenshotError;
use crate::request::{config_of, ScreenshotParams};
use crate::limits::{
    DEFAULT_MAX_WIDTH,
    MAX_TEXT_LEN,
    QUALITY_FLOOR,
    QUALITY_STEP,
    SHRINK_DENOMINATOR,
    SHRINK_NUMERATOR,
    WIDTH_FLOOR,
};

verus! {

/// What the caller asks of the compressor.
#[derive(Clone, Copy, Debug)]
pub struct CompressionConfig {
    /// Quality of the first encoding.
    pub quality: u8,
    /// Width to resize to before encoding, if the image is wider.
    pub max_width: Option<u32>,
    /// How many encoded bytes the caller would like at most.
    pub max_size_bytes: u64,
}

/// The width an image of `width` pixels is reduced to before encoding.
pub open spec fn target_width(width: u32, max_width: Option<u32>) -> u32 {
    match max_width {
        Some(w) => w,
        None => if width > DEFAULT_MAX_WIDTH {
            DEFAULT_MAX_WIDTH
        } else {
            width
        },
    }
}

/// The height that keeps the aspect ratio at the new width, rounded down.
pub open spec fn scaled(height: u32, width: u32, target: u32) -> int {
    height * target / (width as int)
}

/// One shrinking step applied to a side, rounded down.
pub open spec fn shrunk(side: u32) -> int {
    side * SHRINK_NUMERATOR / (SHRINK_DENOMINATOR as int)
}

/// Encoded bytes and quality call for another try at lower quality.
pub open spec fn wants_lower_quality(encoded_len: nat, budget: u64, quality: u8) -> bool {
    encoded_len > budget && quality > QUALITY_FLOOR
}

/// Encoded bytes and width call for a smaller image.
pub open spec fn wants_smaller_image(encoded_len: nat, budget: u64, width: u32) -> bool {
    encoded_len > budget && width > WIDTH_FLOOR
}

/// The image as it is first encoded: resized once if it is wider than the
/// target.
pub open spec fn fitted(image: Raster, max_width: Option<u32>) -> Raster {
    let target = target_width(image.width, max_width);
    if image.width > target {
        resized(image, target, scaled(image.height, image.width, target) as u32)
    } else {
        image
    }
}

/// A quality one step lower, but never under the floor. A quality at or
/// under the floor is left as it is.
pub open spec fn lowered(quality: u8) -> u8 {
    if quality > QUALITY_FLOOR + QUALITY_STEP {
        (quality - QUALITY_STEP) as u8
    } else if quality > QUALITY_FLOOR {
        QUALITY_FLOOR
    } else {
        quality
    }
}

/// The quality at which lowering stops.
pub open spec fn settled_quality(image: Raster, quality: u8, budget: u64) -> u8
    decreases quality,
{
    if wants_lower_quality(jpeg_bytes(image, quality).len(), budget, quality) {
        settled_quality(image, lowered(quality), budget)
    } else {
        quality
    }
}

/// The image after one shrinking step: both sides at four fifths, rounded
/// down.
pub open spec fn shrunk_image(image: Raster) -> Raster {
    resized(image, shrunk(image.width) as u32, shrunk(image.height) as u32)
}

/// The image at which shrinking stops: the first that fits the budget, is
/// no wider than the floor, or cannot be encoded.
pub open spec fn settled_image(image: Raster, quality: u8, budget: u64) -> Raster
    decreases image.width,
{
    if jpeg_encodable(image.width, image.height) && wants_smaller_image(
        jpeg_bytes(image, quality).len(),
        budget,
        image.width,
    ) {
        settled_image(shrunk_image(image), quality, budget)
    } else {
        image
    }
}

/// What compressing must give.
pub enum Expected {
    /// This artifact.
    Artifact(ArtifactView),
    /// No artifact, since the codec cannot take an image of this size.
    Unencodable { width: u32, height: u32 },
    /// No artifact, since its base64 text would have this length.
    TooLarge(nat),
}

/// What compressing `image` under `config` must give.
pub open spec fn expected(image: Raster, config: CompressionConfig) -> Expected {
    let first = fitted(image, config.max_width);
    if !jpeg_encodable(first.width, first.height) {
        Expected::Unencodable { width: first.width, height: first.height }
    } else {
        let quality = settled_quality(first, config.quality, config.max_size_bytes);
        let last = settled_image(first, quality, config.max_size_bytes);
        if !jpeg_encodable(last.width, last.height) {
            Expected::Unencodable { width: last.width, height: last.height }
        } else {
            match sealed(jpeg_bytes(last, quality), last.width, last.height, quality) {
                Ok(artifact) => Expected::Artifact(artifact),
                Err(len) => Expected::TooLarge(len),
            }
        }
    }
}

/// `e` is the error that `expected` asks for.
pub open spec fn is_expected_error(e: ScreenshotError, expected: Expected) -> bool {
    match expected {
        Expected::Artifact(_) => false,
        Expected::Unencodable { width, height } => e matches ScreenshotError::EncodingFailed {
            cause,
        } && cause@ == jpeg_refusal(width, height),
        Expected::TooLarge(len) => e == (ScreenshotError::TooLarge { text_len: len as u128 }),
    }
}

/// `r` is what `expected` asks for.
pub open spec fn meets(r: Result<EncodedArtifact, ScreenshotError>, expected: Expected) -> bool {
    match r {
        Ok(a) => expected == Expected::Artifact(a@),
        Err(e) => is_expected_error(e, expected),
    }
}

/// `r` is the data URI, or the error, that `expected` asks for.
pub open spec fn hands_out(r: Result<String, ScreenshotError>, expected: Expected) -> bool {
    match r {
        Ok(data_url) => expected matches Expected::Artifact(artifact) && data_url@
            == artifact.data_uri,
        Err(e) => is_expected_error(e, expected),
    }
}

/// Where lowering the quality stops: never above where it started, never
/// under the floor unless it started there, untouched if it started at or
/// under the floor; and where it stops above the floor, the bytes are within
/// budget.
pub proof fn lemma_settled_quality_bounds(image: Raster, quality: u8, budget: u64)
    ensures
        settled_quality(image, quality, budget) <= quality,
        quality >= QUALITY_FLOOR ==> settled_quality(image, quality, budget) >= QUALITY_FLOOR,
        quality <= QUALITY_FLOOR ==> settled_quality(image, quality, budget) == quality,
        settled_quality(image, quality, budget) > QUALITY_FLOOR ==> jpeg_bytes(
            image,
            settled_quality(image, quality, budget),
        ).len() <= budget,
    decreases quality,
{
    if wants_lower_quality(jpeg_bytes(image, quality).len(), budget, quality) {
        lemma_settled_quality_bounds(image, lowered(quality), budget);
    }
}

/// The first resize gives exactly the target width and the height in
/// proportion, rounded down; an image no wider than the target is left as it
/// is. With no width asked for, nothing is wider than the default afterwards.
pub proof fn lemma_fitted_size(image: Raster, max_width: Option<u32>)
    ensures
        image.width > target_width(image.width, max_width) ==> fitted(image, max_width).width
            == target_width(image.width, max_width) && fitted(image, max_width).height == scaled(
            image.height,
            image.width,
            target_width(image.width, max_width),
        ),
        image.width <= target_width(image.width, max_width) ==> fitted(image, max_width) == image,
        fitted(image, max_width).width <= image.width,
        fitted(image, max_width).width <= target_width(image.width, max_width),
        fitted(image, max_width).height <= image.height,
        max_width is None ==> fitted(image, max_width).width <= DEFAULT_MAX_WIDTH,
{
    let target = target_width(image.width, max_width);
    if image.width > target {
        lemma_scaled_keeps_ratio(image.height, image.width, target);
    }
}

/// Where shrinking stops, the image cannot be encoded, or its bytes are
/// within budget, or it is no wider than the floor. Shrinking never widens
/// or heightens.
pub proof fn lemma_settled_image_converges(image: Raster, quality: u8, budget: u64)
    ensures
        ({
            let last = settled_image(image, quality, budget);
            ||| !jpeg_encodable(last.width, last.height)
            ||| jpeg_bytes(last, quality).len() <= budget
            ||| last.width <= WIDTH_FLOOR
        }),
        settled_image(image, quality, budget).width <= image.width,
        settled_image(image, quality, budget).height <= image.height,
    decreases image.width,
{
    if jpeg_encodable(image.width, image.height) && wants_smaller_image(
        jpeg_bytes(image, quality).len(),
        budget,
        image.width,
    ) {
        lemma_settled_image_converges(shrunk_image(image), quality, budget);
    }
}

/// The scaled height is the height in proportion to the new width, rounded
/// down: the aspect ratio is kept as closely as whole pixels allow.
pub proof fn lemma_scaled_keeps_ratio(height: u32, width: u32, target: u32)
    requires
        width > 0,
    ensures
        scaled(height, width, target) * width <= height * target < (scaled(height, width, target)
            + 1) * width,
        target <= width ==> 0 <= scaled(height, width, target) <= height,
{
    let product = height * target;
    let quotient = scaled(height, width, target);
    assert(product == (width as int) * (product / (width as int)) + product % (width as int))
        by (nonlinear_arith)
        requires
            width > 0,
    ;
    assert(0 <= product % (width as int) < width) by (nonlinear_arith)
        requires
            width > 0,
    ;
    assert(quotient * width == (width as int) * quotient) by (nonlinear_arith);
    assert((quotient + 1) * width == (width as int) * quotient + width) by (nonlinear_arith);
    if target <= width {
        assert(0 <= product <= height * width) by (nonlinear_arith)
            requires
                product == height * target,
                0 <= target <= width,
                0 <= height,
        ;
        assert(0 <= quotient <= height) by (nonlinear_arith)
            requires
                quotient * width <= product,
                product < (quotient + 1) * width,
                0 <= product <= height * width,
                width > 0,
        ;
    }
}

/// A shrinking step keeps four fifths of a side, rounded down, so both
/// sides shrink by the same factor.
pub proof fn lemma_shrunk_keeps_ratio(side: u32)
    ensures
        SHRINK_DENOMINATOR * shrunk(side) <= SHRINK_NUMERATOR * side < SHRINK_DENOMINATOR * (
        shrunk(side) + 1),
        shrunk(side) <= side,
        side > 0 ==> shrunk(side) < side,
{
}

/// An image that is within budget, or no wider than the floor, is not
/// shrunk.
pub proof fn lemma_settled_image_keeps(image: Raster, quality: u8, budget: u64)
    requires
        jpeg_bytes(image, quality).len() <= budget || image.width <= WIDTH_FLOOR,
    ensures
        settled_image(image, quality, budget) == image,
{
}

/// The width to resize to before encoding.
pub fn effective_max_width(width: u32, max_width: Option<u32>) -> (r: u32)
    ensures
        r == target_width(width, max_width),
{
    match max_width {
        Some(w) => w,
        None => if width > DEFAULT_MAX_WIDTH {
            DEFAULT_MAX_WIDTH
        } else {
            width
        },
    }
}

/// The height that goes with a smaller width.
pub fn scaled_height(height: u32, width: u32, target: u32) -> (r: u32)
    requires
        target < width,
    ensures
        r == scaled(height, width, target),
        r <= height,
{
    proof {
        lemma_scaled_keeps_ratio(height, width, target);
    }
    assert(height * target <= 0xffff_ffff * 0xffff_ffff) by (nonlinear_arith)
        requires
            target <= 0xffff_ffff,
            height <= 0xffff_ffff,
    ;
    let product: u64 = (height as u64) * (target as u64);
    (product / (width as u64)) as u32
}

/// A side after one shrinking step.
pub fn shrunk_side(side: u32) -> (r: u32)
    ensures
        r == shrunk(side),
        r <= side,
        side > 0 ==> r < side,
{
    let numerator: u64 = SHRINK_NUMERATOR as u64;
    let denominator: u64 = SHRINK_DENOMINATOR as u64;
    assert(numerator == 4 && denominator == 5);
    let parts: u64 = (side as u64) * numerator;
    assert(parts == side * 4);
    let kept: u64 = parts / denominator;
    assert(kept == (side * 4) / 5);
    assert(shrunk(side) == (side * 4) / 5);
    kept as u32
}

/// Tells whether to encode again at lower quality.
pub fn should_lower_quality(encoded_len: usize, budget: u64, quality: u8) -> (r: bool)
    ensures
        r == wants_lower_quality(encoded_len as nat, budget, quality),
{
    encoded_len as u64 > budget && quality > QUALITY_FLOOR
}

/// Tells whether to shrink the image and encode again.
pub fn should_shrink(encoded_len: usize, budget: u64, width: u32) -> (r: bool)
    ensures
        r == wants_smaller_image(encoded_len as nat, budget, width),
{
    encoded_len as u64 > budget && width > WIDTH_FLOOR
}

/// The quality for the next attempt: one step lower, but never under the
/// floor.
pub fn lowered_quality(quality: u8) -> (r: u8)
    ensures
        r == lowered(quality),
{
    if quality > QUALITY_FLOOR + QUALITY_STEP {
        quality - QUALITY_STEP
    } else if quality > QUALITY_FLOOR {
        QUALITY_FLOOR
    } else {
        quality
    }
}

/// Resizes the image once, to exactly the target width, if it is wider.
pub fn fit_to_width(image: RawCapture, max_width: Option<u32>) -> (r: RawCapture)
    ensures
        r@ == fitted(image@, max_width),
{
    let width = image.width();
    let target = effective_max_width(width, max_width);
    if width > target {
        let height = scaled_height(image.height(), width, target);
        resize(image, target, height)
    } else {
        image
    }
}

/// Encodes the image, lowering the quality step by step while the bytes are
/// over budget and the quality is above the floor.
pub fn encode_within_budget(image: &RawCapture, quality: u8, budget: u64) -> (r: Result<
    (Vec<u8>, u8),
    ScreenshotError,
>)
    ensures
        r is Ok <==> jpeg_encodable(image@.width, image@.height),
        r matches Ok((bytes, q)) ==> q == settled_quality(image@, quality, budget) && bytes@
            == jpeg_bytes(image@, q),
        r matches Ok((bytes, q)) ==> bytes@.len() <= budget || q <= QUALITY_FLOOR,
        r matches Err(e) ==> (e matches ScreenshotError::EncodingFailed { cause } && cause@
            == jpeg_refusal(image@.width, image@.height)),
{
    let mut current = quality;
    let mut bytes = match encode_jpeg(image, current) {
        Ok(bytes) => bytes,
        Err(cause) => {
            return Err(ScreenshotError::EncodingFailed { cause });
        },
    };
    while should_lower_quality(bytes.len(), budget, current)
        invariant
            jpeg_encodable(image@.width, image@.height),
            bytes@ == jpeg_bytes(image@, current),
            settled_quality(image@, quality, budget) == settled_quality(image@, current, budget),
        decreases current,
    {
        current = lowered_quality(current);
        bytes = match encode_jpeg(image, current) {
            Ok(bytes) => bytes,
            Err(cause) => {
                // The codec refuses by size alone, and the size has not changed.
                return Err(ScreenshotError::EncodingFailed { cause });
            },
        };
    }
    Ok((bytes, current))
}

/// Shrinks the image step by step, encoding it again each time, while the
/// bytes are over budget and the image is wider than the floor. A step that
/// leaves no height ends the run with the codec's refusal.
pub fn shrink_within_budget(image: RawCapture, bytes: Vec<u8>, quality: u8, budget: u64) -> (r:
    Result<(RawCapture, Vec<u8>), ScreenshotError>)
    requires
        jpeg_encodable(image@.width, image@.height),
        bytes@ == jpeg_bytes(image@, quality),
    ensures
        r is Ok <==> jpeg_encodable(
            settled_image(image@, quality, budget).width,
            settled_image(image@, quality, budget).height,
        ),
        r matches Ok((last, encoded)) ==> last@ == settled_image(image@, quality, budget)
            && encoded@ == jpeg_bytes(last@, quality) && (encoded@.len() <= budget || last@.width
            <= WIDTH_FLOOR),
        r matches Err(e) ==> (e matches ScreenshotError::EncodingFailed { cause } && cause@
            == jpeg_refusal(
            settled_image(image@, quality, budget).width,
            settled_image(image@, quality, budget).height,
        )),
{
    let mut current = image;
    let mut bytes = bytes;
    while should_shrink(bytes.len(), budget, current.width())
        invariant
            jpeg_encodable(current@.width, current@.height),
            bytes@ == jpeg_bytes(current@, quality),
            settled_image(image@, quality, budget) == settled_image(current@, quality, budget),
        decreases current@.width,
    {
        let ghost before = current@;
        let width = shrunk_side(current.width());
        let height = shrunk_side(current.height());
        current = resize(current, width, height);
        assert(current@ == shrunk_image(before));
        assert(settled_image(before, quality, budget) == settled_image(current@, quality, budget));
        bytes = match encode_jpeg(&current, quality) {
            Ok(bytes) => bytes,
            Err(cause) => {
                assert(settled_image(current@, quality, budget) == current@);
                return Err(ScreenshotError::EncodingFailed { cause });
            },
        };
    }
    Ok((current, bytes))
}

/// Compresses a capture into an artifact: resize to the target width,
/// encode, lower the quality while over budget, shrink while still over
/// budget, and refuse what is too long for the transport.
pub fn compress(image: RawCapture, config: &CompressionConfig) -> (r: Result<
    EncodedArtifact,
    ScreenshotError,
>)
    ensures
        meets(r, expected(image@, *config)),
        r matches Ok(a) ==> a@.well_formed(),
        r matches Ok(a) ==> a@.bytes.len() <= config.max_size_bytes || a@.width <= WIDTH_FLOOR,
        r matches Ok(a) ==> a@.quality <= config.quality,
        r matches Ok(a) ==> (config.quality >= QUALITY_FLOOR ==> a@.quality >= QUALITY_FLOOR),
        r matches Ok(a) ==> a@.width <= image@.width && a@.height <= image@.height,
        r matches Ok(a) ==> a@.width <= target_width(image@.width, config.max_width),
{
    proof {
        let first = fitted(image@, config.max_width);
        lemma_fitted_size(image@, config.max_width);
        lemma_settled_quality_bounds(first, config.quality, config.max_size_bytes);
        lemma_settled_image_converges(
            first,
            settled_quality(first, config.quality, config.max_size_bytes),
            config.max_size_bytes,
        );
    }
    let first = fit_to_width(image, config.max_width);
    let (bytes, quality) = match encode_within_budget(&first, config.quality, config.max_size_bytes) {
        Ok(pair) => pair,
        Err(error) => {
            return Err(error);
        },
    };
    let (last, bytes) = match shrink_within_budget(first, bytes, quality, config.max_size_bytes) {
        Ok(pair) => pair,
        Err(error) => {
            return Err(error);
        },
    };
    seal(bytes, last.width(), last.height(), quality)
}

/// Compresses a capture as the request asks and hands out the data URI,
/// whose base64 part is complete and within the ceiling.
pub fn process_image(image: RawCapture, params: &ScreenshotParams) -> (r: Result<
    String,
    ScreenshotError,
>)
    ensures
        hands_out(r, expected(image@, config_of(*params))),
        r matches Ok(data_url) ==> data_url@.len() <= uri_prefix().len() + MAX_TEXT_LEN,
{
    let config = params.compression_config();
    match compress(image, &config) {
        Ok(artifact) => Ok(artifact.data_uri),
        Err(error) => Err(error),
    }
}

} // verus!
