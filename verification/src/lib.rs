//! Locating one window among many by loose hints, and squeezing its captured
//! pixels into a size-bounded JPEG data URI.

pub mod artifact;
pub mod capture;
pub mod compress;
pub mod error;
pub mod limits;
pub mod pipeline;
pub mod request;
pub mod resolver;
pub mod response;
pub mod text;
pub mod window;
