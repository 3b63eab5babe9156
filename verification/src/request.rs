//! What a caller may ask for, and what is taken where they say nothing.

use vstd::prelude::*;
use vstd::string::StringExecFns;
use crate::compress::CompressionConfig;
use crate::limits::{DEFAULT_MAX_SIZE_BYTES, DEFAULT_QUALITY};

verus! {

/// A request for a screenshot. Every field may be left out.
#[derive(Debug)]
pub struct ScreenshotParams {
    /// Label of the window looked for.
    pub window_label: Option<String>,
    /// Name, or part of the name, of the application that owns the window.
    pub application_name: Option<String>,
    /// Quality of the first encoding.
    pub quality: Option<u8>,
    /// Width to resize to before encoding.
    pub max_width: Option<u32>,
    /// How many encoded bytes the caller would like at most.
    pub max_size_bytes: Option<u64>,
}

/// The label taken where the request names none.
pub open spec fn default_label() -> Seq<char> {
    "main"@
}

/// A text, or a default where it is missing.
pub open spec fn text_or(text: Option<String>, default: Seq<char>) -> Seq<char> {
    match text {
        Some(s) => s@,
        None => default,
    }
}

/// The compression settings of a request, defaults filled in.
pub open spec fn config_of(params: ScreenshotParams) -> CompressionConfig {
    CompressionConfig {
        quality: match params.quality {
            Some(q) => q,
            None => DEFAULT_QUALITY,
        },
        max_width: params.max_width,
        max_size_bytes: match params.max_size_bytes {
            Some(n) => n,
            None => DEFAULT_MAX_SIZE_BYTES,
        },
    }
}

impl ScreenshotParams {
    /// A request that leaves everything to the defaults.
    pub fn new() -> (r: ScreenshotParams)
        ensures
            r.window_label is None,
            r.application_name is None,
            r.quality is None,
            r.max_width is None,
            r.max_size_bytes is None,
    {
        ScreenshotParams {
            window_label: None,
            application_name: None,
            quality: None,
            max_width: None,
            max_size_bytes: None,
        }
    }

    /// The compression settings, defaults filled in.
    pub fn compression_config(&self) -> (r: CompressionConfig)
        ensures
            r == config_of(*self),
    {
        CompressionConfig {
            quality: match self.quality {
                Some(q) => q,
                None => DEFAULT_QUALITY,
            },
            max_width: self.max_width,
            max_size_bytes: match self.max_size_bytes {
                Some(n) => n,
                None => DEFAULT_MAX_SIZE_BYTES,
            },
        }
    }

    /// The window label, `main` where none is given.
    pub fn window_label_or_default(&self) -> (r: String)
        ensures
            r@ == text_or(self.window_label, default_label()),
    {
        match &self.window_label {
            Some(label) => label.clone(),
            None => String::from_str("main"),
        }
    }

    /// The application hint, empty where none is given.
    pub fn application_name_or_default(&self) -> (r: String)
        ensures
            r@ == text_or(self.application_name, Seq::empty()),
    {
        match &self.application_name {
            Some(name) => name.clone(),
            None => String::new(),
        }
    }
}

} // verus!
