//! The fixed numbers of the compression pipeline, gathered in one place.

use vstd::prelude::*;

verus! {

/// Encoding quality used when the caller names none.
pub const DEFAULT_QUALITY: u8 = 85;

/// Widest image kept as it is when the caller names no width.
pub const DEFAULT_MAX_WIDTH: u32 = 1920;

/// Byte budget used when the caller names none: 2 MiB.
pub const DEFAULT_MAX_SIZE_BYTES: u64 = 2097152;

/// Quality is lowered only while it is above this value.
pub const QUALITY_FLOOR: u8 = 30;

/// How much the quality drops at each attempt.
pub const QUALITY_STEP: u8 = 10;

/// The image is shrunk only while it is wider than this.
pub const WIDTH_FLOOR: u32 = 800;

/// Each shrink keeps this many parts ...
pub const SHRINK_NUMERATOR: u32 = 4;

/// ... out of this many, rounding down.
pub const SHRINK_DENOMINATOR: u32 = 5;

/// Longest base64 text that may be handed out: 5 MiB.
pub const MAX_TEXT_LEN: usize = 5242880;

/// Most encoded bytes whose base64 text still fits `MAX_TEXT_LEN`.
pub const MAX_PAYLOAD_LEN: usize = 3932160;

/// Longest side that a JPEG image can have.
pub const MAX_JPEG_SIDE: u32 = 65535;

} // verus!
