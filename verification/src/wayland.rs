//! Outcomes of the desktop portal's screen-cast negotiation.

use vstd::prelude::*;

use crate::text::{push_str, string_of};

verus! {

/// Distinct error so the recorder can show "capture cancelled" instead of a
/// hard failure when the user dismisses the portal's monitor-picker dialog.
#[derive(Debug)]
pub enum WaylandCaptureError {
    /// The user dismissed the screen selection dialog.
    Cancelled,
    /// Any other failure, with its message.
    Other(String),
}

/// The portal's text for a request the user cancelled.
pub open spec fn cancelled_text() -> Seq<char> {
    "Portal request was cancelled"@
}

/// The error for a failed start of the screen cast: a portal response error
/// whose text is `Portal request was cancelled` means the user cancelled;
/// anything else is `starting screencast: <message>`.
pub fn classify_start_error(is_response_error: bool, message: &str) -> (r: WaylandCaptureError)
    ensures
        (is_response_error && message@ == cancelled_text()) ==> r is Cancelled,
        !(is_response_error && message@ == cancelled_text()) ==> (r matches WaylandCaptureError::Other(m)
            && m@ == "starting screencast: "@ + message@),
{
    if is_response_error && crate::text::str_equal(message, "Portal request was cancelled") {
        WaylandCaptureError::Cancelled
    } else {
        let mut m = string_of("starting screencast: ");
        push_str(&mut m, message);
        WaylandCaptureError::Other(m)
    }
}

impl WaylandCaptureError {
    /// The error's text: the fixed text for a cancellation, the message
    /// itself otherwise.
    pub fn message(&self) -> (r: String)
        ensures
            match self {
                WaylandCaptureError::Cancelled => r@ == "user cancelled the screen selection dialog"@,
                WaylandCaptureError::Other(m) => r@ == m@,
            },
    {
        match self {
            WaylandCaptureError::Cancelled => string_of("user cancelled the screen selection dialog"),
            WaylandCaptureError::Other(m) => m.clone(),
        }
    }

    /// What the recorder reports when starting the capture failed: a
    /// cancellation as `capture cancelled by user`, anything else as is.
    pub fn start_failure(&self) -> (r: String)
        ensures
            match self {
                WaylandCaptureError::Cancelled => r@ == "capture cancelled by user"@,
                WaylandCaptureError::Other(m) => r@ == m@,
            },
    {
        match self {
            WaylandCaptureError::Cancelled => string_of("capture cancelled by user"),
            WaylandCaptureError::Other(m) => m.clone(),
        }
    }
}

/// Whether a PipeWire buffer gives a frame: it has data and the video size
/// has been negotiated.
pub fn buffer_usable(has_data: bool, width: u32) -> (r: bool)
    ensures
        r == (has_data && width != 0),
{
    has_data && width != 0
}

} // verus!
