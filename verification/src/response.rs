//! What goes back to the caller: the data URI, or the reason there is none.

use vstd::prelude::*;
use crate::error::{message_text, ScreenshotError};

verus! {

/// The answer to a screenshot request.
#[derive(Debug)]
pub struct ScreenshotResponse {
    /// The image as a data URI.
    pub data: Option<String>,
    pub success: bool,
    pub error: Option<String>,
}

/// The envelope handed to the transport.
#[derive(Debug)]
pub struct SocketResponse {
    pub success: bool,
    /// The answer, on success.
    pub data: Option<ScreenshotResponse>,
    /// What went wrong, in words, on failure.
    pub error: Option<String>,
}

/// The answer that carries a data URI.
pub fn create_success_response(data_url: String) -> (r: ScreenshotResponse)
    ensures
        r.success,
        r.data == Some(data_url),
        r.error is None,
{
    ScreenshotResponse { data: Some(data_url), success: true, error: None }
}

/// Wraps the outcome of a request: the answer on success, and on failure the
/// error's message and nothing else.
pub fn envelope(outcome: Result<ScreenshotResponse, ScreenshotError>) -> (r: SocketResponse)
    ensures
        match outcome {
            Ok(response) => r.success && r.data == Some(response) && r.error is None,
            Err(error) => !r.success && r.data is None && (r.error matches Some(text) && text@
                == message_text(error)),
        },
{
    match outcome {
        Ok(response) => SocketResponse { success: true, data: Some(response), error: None },
        Err(error) => SocketResponse { success: false, data: None, error: Some(error.message()) },
    }
}

} // verus!
