//! The two computing steps of a screenshot, on either side of the capture:
//! choosing the window, and turning its pixels into the answer.

use vstd::prelude::*;
use crate::artifact::uri_prefix;
use crate::compress::{expected, is_expected_error, process_image, Expected};
use crate::capture::RawCapture;
use crate::error::ScreenshotError;
use crate::limits::MAX_TEXT_LEN;
use crate::request::{config_of, text_or, ScreenshotParams};
use crate::resolver::{find_window, resolution};
use crate::response::{create_success_response, ScreenshotResponse};
use crate::window::{snapshot_view, WindowDescriptor};

verus! {

/// Chooses the window to capture for a request, among the windows listed
/// just now. `window_title` is the title looked for; the application hint is
/// the request's. Where nothing matches, that is an error of its own, and
/// nothing is picked by default.
pub fn select_window(
    windows: &Vec<WindowDescriptor>,
    window_title: &str,
    params: &ScreenshotParams,
) -> (r: Result<usize, ScreenshotError>)
    ensures
        match resolution(
            snapshot_view(windows@),
            window_title@,
            text_or(params.application_name, Seq::empty()),
        ) {
            Some(i) => r == Ok::<usize, ScreenshotError>(i as usize) && 0 <= i < windows.len(),
            None => r matches Err(e) && e == ScreenshotError::WindowNotFound,
        },
{
    let hint = params.application_name_or_default();
    match find_window(windows, window_title, hint.as_str()) {
        Some(i) => Ok(i),
        None => Err(ScreenshotError::WindowNotFound),
    }
}

/// `r` is the answer, or the error, that `expected` asks for. A compressor's
/// error is handed on as it is.
pub open spec fn answers(r: Result<ScreenshotResponse, ScreenshotError>, expected: Expected)
    -> bool {
    match r {
        Ok(response) => {
            &&& response.success
            &&& response.error is None
            &&& expected matches Expected::Artifact(artifact)
            &&& response.data matches Some(data_url)
            &&& data_url@ == artifact.data_uri
            &&& data_url@.len() <= uri_prefix().len() + MAX_TEXT_LEN
        },
        Err(e) => is_expected_error(e, expected),
    }
}

/// Turns what the capture call gave into the answer: the compressed image
/// as a data URI, or the capture's failure with its cause, or the
/// compressor's error unchanged.
pub fn finish(captured: Result<RawCapture, String>, params: &ScreenshotParams) -> (r: Result<
    ScreenshotResponse,
    ScreenshotError,
>)
    ensures
        match captured {
            Err(cause) => r matches Err(e) && e == (ScreenshotError::CaptureFailed { cause }),
            Ok(image) => answers(r, expected(image@, config_of(*params))),
        },
{
    match captured {
        Err(cause) => Err(ScreenshotError::CaptureFailed { cause }),
        Ok(image) => match process_image(image, params) {
            Ok(data_url) => Ok(create_success_response(data_url)),
            Err(error) => Err(error),
        },
    }
}

} // verus!
