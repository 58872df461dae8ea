//! Video encoders: the ffmpeg arguments that select each one, the
//! candidates per platform, and the probe that picks the first that works.

use vstd::prelude::*;

use crate::paths::Platform;
use crate::text::{arg_view, dec, dec_string, has_pair, push_arg, push_arg_owned};

verus! {

/// The H.264 encoders the recorder can drive.
#[derive(Debug, Clone, Copy, PartialEq, Eq, Structural)]
pub enum VideoEncoder {
    Nvenc,
    Qsv,
    Amf,
    Vaapi,
    X264,
}

/// The encoder-selecting arguments of `enc` (quality excluded).
pub open spec fn probe_args_spec(enc: VideoEncoder) -> Seq<Seq<char>> {
    match enc {
        VideoEncoder::Nvenc => seq!["-c:v"@, "h264_nvenc"@, "-preset"@, "p4"@],
        VideoEncoder::Qsv => seq!["-c:v"@, "h264_qsv"@],
        VideoEncoder::Amf => seq!["-c:v"@, "h264_amf"@, "-rc"@, "cqp"@],
        VideoEncoder::Vaapi => seq![
            "-vaapi_device"@,
            "/dev/dri/renderD128"@,
            "-vf"@,
            "format=nv12,hwupload"@,
            "-c:v"@,
            "h264_vaapi"@,
        ],
        VideoEncoder::X264 => seq!["-c:v"@, "libx264"@, "-preset"@, "veryfast"@],
    }
}

/// The encoder-selecting arguments of `enc` in a recording: those of the
/// probe, less VAAPI's `-vf format=nv12,hwupload`. A recording puts that
/// upload at the end of its one video filter chain (after any scaling), so
/// its command line carries a single `-vf`.
pub open spec fn encode_args_spec(enc: VideoEncoder) -> Seq<Seq<char>> {
    if enc == VideoEncoder::Vaapi {
        seq!["-vaapi_device"@, "/dev/dri/renderD128"@, "-c:v"@, "h264_vaapi"@]
    } else {
        probe_args_spec(enc)
    }
}

/// The quality arguments of `enc` at quality `q`.
pub open spec fn quality_args_spec(enc: VideoEncoder, q: u8) -> Seq<Seq<char>> {
    let d = dec(q as nat);
    match enc {
        VideoEncoder::Nvenc => seq!["-cq"@, d],
        VideoEncoder::Qsv => seq!["-global_quality"@, d],
        VideoEncoder::Amf => seq!["-qp_i"@, d, "-qp_p"@, d],
        VideoEncoder::Vaapi => seq!["-qp"@, d],
        VideoEncoder::X264 => seq!["-crf"@, d],
    }
}

/// The encoders tried on `p`, in order of preference.
pub open spec fn candidates_spec(p: Platform) -> Seq<VideoEncoder> {
    if p == Platform::Windows {
        seq![VideoEncoder::Nvenc, VideoEncoder::Qsv, VideoEncoder::Amf, VideoEncoder::X264]
    } else {
        seq![VideoEncoder::Vaapi, VideoEncoder::X264]
    }
}

impl VideoEncoder {
    /// Encoder args (excluding quality, which callers append via
    /// `quality_args`).
    pub fn probe_args(self) -> (r: Vec<String>)
        ensures
            arg_view(r@) == probe_args_spec(self),
    {
        let mut r: Vec<String> = Vec::new();
        match self {
            VideoEncoder::Nvenc => {
                push_arg(&mut r, "-c:v");
                push_arg(&mut r, "h264_nvenc");
                push_arg(&mut r, "-preset");
                push_arg(&mut r, "p4");
            },
            VideoEncoder::Qsv => {
                push_arg(&mut r, "-c:v");
                push_arg(&mut r, "h264_qsv");
            },
            VideoEncoder::Amf => {
                push_arg(&mut r, "-c:v");
                push_arg(&mut r, "h264_amf");
                push_arg(&mut r, "-rc");
                push_arg(&mut r, "cqp");
            },
            VideoEncoder::Vaapi => {
                push_arg(&mut r, "-vaapi_device");
                push_arg(&mut r, "/dev/dri/renderD128");
                push_arg(&mut r, "-vf");
                push_arg(&mut r, "format=nv12,hwupload");
                push_arg(&mut r, "-c:v");
                push_arg(&mut r, "h264_vaapi");
            },
            VideoEncoder::X264 => {
                push_arg(&mut r, "-c:v");
                push_arg(&mut r, "libx264");
                push_arg(&mut r, "-preset");
                push_arg(&mut r, "veryfast");
            },
        }
        assert(arg_view(r@) =~= probe_args_spec(self));
        r
    }

    /// Encoder args for a recording (excluding quality): the probe's, with
    /// VAAPI's pixel-format upload left to the recording's video filter.
    pub fn encode_args(self) -> (r: Vec<String>)
        ensures
            arg_view(r@) == encode_args_spec(self),
    {
        match self {
            VideoEncoder::Vaapi => {
                let mut r: Vec<String> = Vec::new();
                push_arg(&mut r, "-vaapi_device");
                push_arg(&mut r, "/dev/dri/renderD128");
                push_arg(&mut r, "-c:v");
                push_arg(&mut r, "h264_vaapi");
                assert(arg_view(r@) =~= encode_args_spec(self));
                r
            },
            _ => self.probe_args(),
        }
    }

    /// The quality arguments for quality `q` (CQ, global quality, QP or
    /// CRF, as the encoder names it).
    pub fn quality_args(self, q: u8) -> (r: Vec<String>)
        ensures
            arg_view(r@) == quality_args_spec(self, q),
    {
        let mut r: Vec<String> = Vec::new();
        match self {
            VideoEncoder::Nvenc => {
                push_arg(&mut r, "-cq");
                push_arg_owned(&mut r, dec_string(q as u64));
            },
            VideoEncoder::Qsv => {
                push_arg(&mut r, "-global_quality");
                push_arg_owned(&mut r, dec_string(q as u64));
            },
            VideoEncoder::Amf => {
                push_arg(&mut r, "-qp_i");
                push_arg_owned(&mut r, dec_string(q as u64));
                push_arg(&mut r, "-qp_p");
                push_arg_owned(&mut r, dec_string(q as u64));
            },
            VideoEncoder::Vaapi => {
                push_arg(&mut r, "-qp");
                push_arg_owned(&mut r, dec_string(q as u64));
            },
            VideoEncoder::X264 => {
                push_arg(&mut r, "-crf");
                push_arg_owned(&mut r, dec_string(q as u64));
            },
        }
        assert(arg_view(r@) =~= quality_args_spec(self, q));
        r
    }

    /// The encoders to try on `p`, in order: NVENC, QSV, AMF, then libx264
    /// on Windows; VAAPI, then libx264 on Linux.
    pub fn candidates(p: Platform) -> (r: Vec<VideoEncoder>)
        ensures
            r@ == candidates_spec(p),
    {
        let r = match p {
            Platform::Windows => vec![
                VideoEncoder::Nvenc,
                VideoEncoder::Qsv,
                VideoEncoder::Amf,
                VideoEncoder::X264,
            ],
            Platform::Linux => vec![VideoEncoder::Vaapi, VideoEncoder::X264],
        };
        assert(r@ =~= candidates_spec(p));
        r
    }
}

/// The arguments of the test encode that probes `enc`: a 0.2 s black
/// 256x256 clip, three frames, encoded and discarded.
pub open spec fn probe_command_spec(enc: VideoEncoder) -> Seq<Seq<char>> {
    seq![
        "-hide_banner"@,
        "-v"@,
        "error"@,
        "-f"@,
        "lavfi"@,
        "-i"@,
        "color=black:s=256x256:r=30:d=0.2"@,
        "-frames:v"@,
        "3"@,
    ] + probe_args_spec(enc) + seq!["-f"@, "null"@, "-"@]
}

/// The full argument list of the probe encode for `enc`.
pub fn probe_command(enc: VideoEncoder) -> (r: Vec<String>)
    ensures
        arg_view(r@) == probe_command_spec(enc),
{
    let mut r: Vec<String> = Vec::new();
    push_arg(&mut r, "-hide_banner");
    push_arg(&mut r, "-v");
    push_arg(&mut r, "error");
    push_arg(&mut r, "-f");
    push_arg(&mut r, "lavfi");
    push_arg(&mut r, "-i");
    push_arg(&mut r, "color=black:s=256x256:r=30:d=0.2");
    push_arg(&mut r, "-frames:v");
    push_arg(&mut r, "3");
    let p = enc.probe_args();
    crate::text::append_args(&mut r, p);
    push_arg(&mut r, "-f");
    push_arg(&mut r, "null");
    push_arg(&mut r, "-");
    assert(arg_view(r@) =~= probe_command_spec(enc));
    r
}

/// The encoder chosen after the probe encodes of the first
/// `outcomes.len()` candidates succeeded (`true`) or failed: the first
/// candidate whose probe succeeded, if any.
pub open spec fn first_success(cands: Seq<VideoEncoder>, outcomes: Seq<bool>) -> Option<
    VideoEncoder,
>
    decreases outcomes.len(),
{
    if outcomes.len() == 0 || cands.len() == 0 {
        None
    } else if outcomes[0] {
        Some(cands[0])
    } else {
        first_success(cands.drop_first(), outcomes.drop_first())
    }
}

/// What the probe does next.
#[derive(Debug)]
pub enum ProbeStep {
    /// Run ffmpeg with these arguments and report whether it exited 0.
    Try(VideoEncoder, Vec<String>),
    /// The probe is over: use this encoder.
    Done(VideoEncoder),
}

/// Probe encoder support by running a real tiny encode per candidate. First
/// exit-0 wins; libx264 is the fallback when none does. Not cached to disk:
/// the caller keeps the result for the process lifetime.
pub struct EncoderProbe {
    candidates: Vec<VideoEncoder>,
    outcomes: Vec<bool>,
}

impl EncoderProbe {
    /// The candidates, in the order they are tried.
    pub closed spec fn cands(&self) -> Seq<VideoEncoder> {
        self.candidates@
    }

    /// The outcomes reported so far, one per candidate tried.
    pub closed spec fn reported(&self) -> Seq<bool> {
        self.outcomes@
    }

    /// The probe's invariant: outcomes were reported for a prefix of the
    /// candidates, and none after a success.
    pub open spec fn wf(&self) -> bool {
        &&& self.reported().len() <= self.cands().len()
        &&& forall|i: int| 0 <= i < self.reported().len() - 1 ==> !#[trigger] self.reported()[i]
    }

    /// The step the probe is at: done with the first success, done with the
    /// libx264 fallback once every candidate failed, or the next candidate.
    pub open spec fn next_spec(&self) -> Option<VideoEncoder> {
        match first_success(self.cands(), self.reported()) {
            Some(e) => Some(e),
            None => if self.reported().len() >= self.cands().len() {
                Some(VideoEncoder::X264)
            } else {
                None
            },
        }
    }

    /// A probe over the candidates of `p`, nothing tried yet.
    pub fn new(p: Platform) -> (r: EncoderProbe)
        ensures
            r.wf(),
            r.cands() == candidates_spec(p),
            r.reported().len() == 0,
    {
        EncoderProbe { candidates: VideoEncoder::candidates(p), outcomes: Vec::new() }
    }

    /// The next step: `Done` with the chosen encoder, or `Try` with the
    /// next candidate and its probe command.
    pub fn step(&self) -> (r: ProbeStep)
        requires
            self.wf(),
        ensures
            match r {
                ProbeStep::Done(e) => self.next_spec() == Some(e),
                ProbeStep::Try(e, args) => {
                    &&& self.next_spec() is None
                    &&& e == self.cands()[self.reported().len() as int]
                    &&& arg_view(args@) == probe_command_spec(e)
                },
            },
    {
        let n = self.outcomes.len();
        proof {
            lemma_first_success_prefix(self.cands(), self.reported());
        }
        if n > 0 && self.outcomes[n - 1] {
            return ProbeStep::Done(self.candidates[n - 1]);
        }
        if n >= self.candidates.len() {
            return ProbeStep::Done(VideoEncoder::X264);
        }
        let e = self.candidates[n];
        ProbeStep::Try(e, probe_command(e))
    }

    /// Records whether the probe encode of the current candidate exited 0.
    pub fn report(&mut self, ok: bool)
        requires
            old(self).wf(),
            old(self).next_spec() is None,
        ensures
            final(self).wf(),
            final(self).cands() == old(self).cands(),
            final(self).reported() == old(self).reported().push(ok),
    {
        proof {
            lemma_first_success_prefix(self.cands(), self.reported());
        }
        self.outcomes.push(ok);
    }
}

/// With no success before the last outcome, the first success is the last
/// candidate tried if its outcome is a success, and none otherwise.
proof fn lemma_first_success_prefix(cands: Seq<VideoEncoder>, outcomes: Seq<bool>)
    requires
        outcomes.len() <= cands.len(),
        forall|i: int| 0 <= i < outcomes.len() - 1 ==> !#[trigger] outcomes[i],
    ensures
        outcomes.len() > 0 && outcomes.last() ==> first_success(cands, outcomes) == Some(
            cands[outcomes.len() - 1],
        ),
        !(outcomes.len() > 0 && outcomes.last()) ==> first_success(cands, outcomes) is None,
    decreases outcomes.len(),
{
    if outcomes.len() > 1 {
        assert forall|i: int| 0 <= i < outcomes.drop_first().len() - 1 implies !#[trigger] outcomes.drop_first()[i] by {
            assert(outcomes.drop_first()[i] == outcomes[i + 1]);
        }
        assert(!outcomes[0]);
        lemma_first_success_prefix(cands.drop_first(), outcomes.drop_first());
    } else if outcomes.len() == 1 {
        assert(outcomes.drop_first().len() == 0);
        assert(first_success(cands.drop_first(), outcomes.drop_first()) is None);
    }
}

/// Law: the probe ends on the first candidate whose test encode succeeded,
/// or on libx264 once every candidate failed.
pub proof fn law_probe_picks_first_success(cands: Seq<VideoEncoder>, outcomes: Seq<bool>, k: int)
    requires
        outcomes.len() <= cands.len(),
        0 <= k < outcomes.len(),
        outcomes[k],
        forall|i: int| 0 <= i < k ==> !#[trigger] outcomes[i],
    ensures
        first_success(cands, outcomes) == Some(cands[k]),
    decreases k,
{
    if k > 0 {
        assert forall|i: int| 0 <= i < k - 1 implies !#[trigger] outcomes.drop_first()[i] by {
            assert(outcomes.drop_first()[i] == outcomes[i + 1]);
        }
        law_probe_picks_first_success(cands.drop_first(), outcomes.drop_first(), k - 1);
    }
}

/// An encoder whose quality is given as per-frame-type QPs (`-qp_i`,
/// `-qp_p`) runs in constant-QP rate control: both its probe and a
/// recording with it select `-rc cqp`, so those QPs are obeyed.
pub proof fn law_frame_qp_selects_cqp(enc: VideoEncoder, q: u8)
    requires
        quality_args_spec(enc, q).len() > 0,
        quality_args_spec(enc, q)[0] == "-qp_i"@,
    ensures
        has_pair(probe_args_spec(enc), "-rc"@, "cqp"@),
        has_pair(encode_args_spec(enc), "-rc"@, "cqp"@),
{
    reveal_strlit("-qp_i");
    reveal_strlit("-cq");
    reveal_strlit("-global_quality");
    reveal_strlit("-qp");
    reveal_strlit("-crf");
    assert(enc == VideoEncoder::Amf) by {
        match enc {
            VideoEncoder::Nvenc => assert("-cq"@.len() != "-qp_i"@.len()),
            VideoEncoder::Qsv => assert("-global_quality"@.len() != "-qp_i"@.len()),
            VideoEncoder::Vaapi => assert("-qp"@.len() != "-qp_i"@.len()),
            VideoEncoder::X264 => assert("-crf"@.len() != "-qp_i"@.len()),
            VideoEncoder::Amf => {},
        }
    }
    assert(probe_args_spec(enc)[2] == "-rc"@ && probe_args_spec(enc)[3] == "cqp"@);
}

} // verus!
