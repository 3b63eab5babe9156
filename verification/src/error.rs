//! What can go wrong between a request and its screenshot, and how it is
//! told to the caller.

use vstd::prelude::*;
use vstd::string::StringExecFns;

verus! {

/// Why no screenshot was produced.
#[derive(Debug)]
pub enum ScreenshotError {
    /// The request could not be read.
    MalformedRequest { cause: String },
    /// The list of windows could not be had.
    WindowListUnavailable { cause: String },
    /// No window matched either pass.
    WindowNotFound,
    /// The capture call failed.
    CaptureFailed { cause: String },
    /// The codec produced no output.
    EncodingFailed { cause: String },
    /// The base64 text would be longer than allowed.
    TooLarge { text_len: u128 },
}

/// The character for a digit.
pub open spec fn digit(d: nat) -> char {
    if d == 0 {
        '0'
    } else if d == 1 {
        '1'
    } else if d == 2 {
        '2'
    } else if d == 3 {
        '3'
    } else if d == 4 {
        '4'
    } else if d == 5 {
        '5'
    } else if d == 6 {
        '6'
    } else if d == 7 {
        '7'
    } else if d == 8 {
        '8'
    } else {
        '9'
    }
}

/// A number written in decimal, without leading zeros.
pub open spec fn decimal(n: nat) -> Seq<char>
    decreases n,
{
    if n < 10 {
        seq![digit(n)]
    } else {
        decimal(n / 10).push(digit(n % 10))
    }
}

/// The message that goes with an error.
pub open spec fn message_text(error: ScreenshotError) -> Seq<char> {
    match error {
        ScreenshotError::MalformedRequest { cause } => "Invalid payload for takeScreenshot: "@
            + cause@,
        ScreenshotError::WindowListUnavailable { cause } => "Failed to get window list: "@ + cause@,
        ScreenshotError::WindowNotFound =>
            "Window not found using any detection method. Please ensure the window is visible and not minimized."@,
        ScreenshotError::CaptureFailed { cause } => "Failed to capture window image: "@ + cause@,
        ScreenshotError::EncodingFailed { cause } => "Failed to encode JPEG: "@ + cause@,
        ScreenshotError::TooLarge { text_len } => "Screenshot is still too large: "@ + decimal(
            text_len as nat,
        ) + " bytes. Try using a smaller max_width."@,
    }
}

fn digit_text(d: u8) -> (r: &'static str)
    requires
        d < 10,
    ensures
        r@ == seq![digit(d as nat)],
{
    proof {
        reveal_strlit("0");
        reveal_strlit("1");
        reveal_strlit("2");
        reveal_strlit("3");
        reveal_strlit("4");
        reveal_strlit("5");
        reveal_strlit("6");
        reveal_strlit("7");
        reveal_strlit("8");
        reveal_strlit("9");
    }
    let r = if d == 0 {
        "0"
    } else if d == 1 {
        "1"
    } else if d == 2 {
        "2"
    } else if d == 3 {
        "3"
    } else if d == 4 {
        "4"
    } else if d == 5 {
        "5"
    } else if d == 6 {
        "6"
    } else if d == 7 {
        "7"
    } else if d == 8 {
        "8"
    } else {
        "9"
    };
    assert(r@ =~= seq![digit(d as nat)]);
    r
}

/// Writes a number in decimal.
pub fn decimal_text(n: u128) -> (r: String)
    ensures
        r@ == decimal(n as nat),
    decreases n,
{
    if n < 10 {
        String::from_str(digit_text(n as u8))
    } else {
        let mut text = decimal_text(n / 10);
        text.append(digit_text((n % 10) as u8));
        assert(text@ =~= decimal((n / 10) as nat).push(digit((n % 10) as nat)));
        text
    }
}

impl ScreenshotError {
    /// The message for the caller: what failed and, where one is known, the
    /// underlying cause word for word.
    pub fn message(&self) -> (r: String)
        ensures
            r@ == message_text(*self),
    {
        match self {
            ScreenshotError::MalformedRequest { cause } => String::from_str(
                "Invalid payload for takeScreenshot: ",
            ).concat(cause.as_str()),
            ScreenshotError::WindowListUnavailable { cause } => String::from_str(
                "Failed to get window list: ",
            ).concat(cause.as_str()),
            ScreenshotError::WindowNotFound => String::from_str(
                "Window not found using any detection method. Please ensure the window is visible and not minimized.",
            ),
            ScreenshotError::CaptureFailed { cause } => String::from_str(
                "Failed to capture window image: ",
            ).concat(cause.as_str()),
            ScreenshotError::EncodingFailed { cause } => String::from_str(
                "Failed to encode JPEG: ",
            ).concat(cause.as_str()),
            ScreenshotError::TooLarge { text_len } => {
                let number = decimal_text(*text_len);
                String::from_str("Screenshot is still too large: ").concat(number.as_str()).concat(
                    " bytes. Try using a smaller max_width.",
                )
            },
        }
    }
}

} // verus!
