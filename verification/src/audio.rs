//! Audio sources: what a probed capture device reports, and whether the
//! recorder can use it.

use vstd::prelude::*;

verus! {

/// Actual negotiated sample rate/channels for a probed device, so the
/// caller can tell ffmpeg's `-ar`/`-ac` the truth before ever spawning it
/// (ffmpeg resamples; the recorder never does in-process).
#[derive(Debug, Clone, Copy, PartialEq, Eq, Structural)]
pub struct StreamInfo {
    pub sample_rate: u32,
    pub channels: u16,
}

impl StreamInfo {
    /// The stream a probed device offers: usable only when its default
    /// sample format is 32-bit float, in which case its rate and channel
    /// count are what ffmpeg is told.
    pub fn from_probe(sample_format_is_f32: bool, sample_rate: u32, channels: u16) -> (r: Option<
        StreamInfo,
    >)
        ensures
            sample_format_is_f32 ==> r == Some(StreamInfo { sample_rate, channels }),
            !sample_format_is_f32 ==> r is None,
    {
        if sample_format_is_f32 {
            Some(StreamInfo { sample_rate, channels })
        } else {
            None
        }
    }
}

} // verus!
