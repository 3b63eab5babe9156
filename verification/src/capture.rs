//! Captured pixels, and the two things only the imaging crate can do with
//! them: resample and encode.

use vstd::prelude::*;
use crate::limits::MAX_JPEG_SIDE;

verus! {

/// What a capture holds: its size and its RGBA bytes, row by row.
pub struct Raster {
    pub width: u32,
    pub height: u32,
    pub pixels: Seq<u8>,
}

/// A pixel buffer with four bytes (red, green, blue, alpha) per pixel.
pub struct RawCapture {
    width: u32,
    height: u32,
    pixels: Vec<u8>,
}

/// The buffer holds exactly four bytes for each pixel.
pub open spec fn is_rgba_buffer(width: u32, height: u32, len: nat) -> bool {
    len == 4 * (width * height)
}

/// Both sides are within what a JPEG header can record.
pub open spec fn jpeg_encodable(width: u32, height: u32) -> bool {
    1 <= width <= MAX_JPEG_SIDE && 1 <= height <= MAX_JPEG_SIDE
}

/// The pixels that `image::DynamicImage::resize_exact` gives an RGBA image
/// when it is resampled to `nwidth` by `nheight` with the triangle filter.
pub uninterp spec fn resized_pixels(image: Raster, nwidth: u32, nheight: u32) -> Seq<u8>;

/// The bytes that `image::codecs::jpeg::JpegEncoder` writes for an RGBA image
/// at a quality.
pub uninterp spec fn jpeg_bytes(image: Raster, quality: u8) -> Seq<u8>;

/// The words in which `image::codecs::jpeg::JpegEncoder` refuses an image of
/// this size.
pub uninterp spec fn jpeg_refusal(width: u32, height: u32) -> Seq<char>;

/// An image resampled to exactly `nwidth` by `nheight`.
pub open spec fn resized(image: Raster, nwidth: u32, nheight: u32) -> Raster {
    Raster { width: nwidth, height: nheight, pixels: resized_pixels(image, nwidth, nheight) }
}

impl View for RawCapture {
    type V = Raster;

    closed spec fn view(&self) -> Raster {
        Raster { width: self.width, height: self.height, pixels: self.pixels@ }
    }
}

impl RawCapture {
    #[verifier::type_invariant]
    spec fn well_formed(self) -> bool {
        is_rgba_buffer(self.width, self.height, self.pixels@.len())
    }

    /// Takes a buffer as a capture if it holds four bytes per pixel.
    pub fn new(width: u32, height: u32, pixels: Vec<u8>) -> (r: Option<RawCapture>)
        ensures
            r is Some <==> is_rgba_buffer(width, height, pixels@.len()),
            r matches Some(capture) ==> capture@ == (Raster { width, height, pixels: pixels@ }),
    {
        assert(width * height <= 0xffff_ffff * 0xffff_ffff) by (nonlinear_arith)
            requires
                width <= 0xffff_ffff,
                height <= 0xffff_ffff,
        ;
        let area: u64 = (width as u64) * (height as u64);
        let expected: u128 = 4 * (area as u128);
        if pixels.len() as u128 == expected {
            Some(RawCapture { width, height, pixels })
        } else {
            None
        }
    }

    /// Width in pixels.
    pub fn width(&self) -> (r: u32)
        ensures
            r == self@.width,
    {
        self.width
    }

    /// Height in pixels.
    pub fn height(&self) -> (r: u32)
        ensures
            r == self@.height,
    {
        self.height
    }

    /// The RGBA bytes, row by row.
    pub fn pixels(&self) -> (r: &Vec<u8>)
        ensures
            r@ == self@.pixels,
            is_rgba_buffer(self@.width, self@.height, r@.len()),
    {
        proof {
            use_type_invariant(self);
        }
        &self.pixels
    }
}

/// Calls `image::DynamicImage::resize_exact` with the triangle filter, to
/// shrink only. Trusted: the result has exactly the size asked for, a side
/// of zero included, and its pixels depend on the arguments alone.
#[verifier::external_body]
pub(crate) fn resize(image: RawCapture, nwidth: u32, nheight: u32) -> (r: RawCapture)
    requires
        nwidth <= image@.width,
        nheight <= image@.height,
    ensures
        r@ == (Raster {
            width: nwidth,
            height: nheight,
            pixels: resized_pixels(image@, nwidth, nheight),
        }),
{
    let buffer = image::RgbaImage::from_raw(image.width, image.height, image.pixels).unwrap();
    let scaled = image::DynamicImage::ImageRgba8(buffer)
        .resize_exact(nwidth, nheight, image::imageops::FilterType::Triangle)
        .into_rgba8();
    RawCapture { width: scaled.width(), height: scaled.height(), pixels: scaled.into_raw() }
}

/// Calls `image::codecs::jpeg::JpegEncoder::new_with_quality` and
/// `encode_image`, writing into a fresh vector, and hands a refusal back as
/// the text that the codec's error displays. Trusted: the encoder refuses
/// exactly the images with a side of zero or above 65535 pixels; what it
/// writes depends on the image and the quality alone; and the words of a
/// refusal depend on the two sides alone.
#[verifier::external_body]
pub(crate) fn encode_jpeg(image: &RawCapture, quality: u8) -> (r: Result<Vec<u8>, String>)
    ensures
        r is Ok <==> jpeg_encodable(image@.width, image@.height),
        r matches Ok(bytes) ==> bytes@ == jpeg_bytes(image@, quality),
        r matches Err(text) ==> text@ == jpeg_refusal(image@.width, image@.height),
{
    let view = image::ImageBuffer::<image::Rgba<u8>, &[u8]>::from_raw(
        image.width,
        image.height,
        image.pixels.as_slice(),
    ).unwrap();
    let mut out = Vec::new();
    let done = image::codecs::jpeg::JpegEncoder::new_with_quality(&mut out, quality).encode_image(&view);
    match done {
        Ok(()) => Ok(out),
        Err(error) => Err(error.to_string()),
    }
}

} // verus!
