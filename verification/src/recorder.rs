//! The ffmpeg command line of a recording session: inputs (raw video from
//! the pacer or x11grab, audio from loopback sockets or PulseAudio),
//! filters, encoder and output; and the output file's name.

use vstd::prelude::*;

use crate::audio::StreamInfo;
use crate::config::Config;
use crate::ffmpeg::{encode_args_spec, quality_args_spec, VideoEncoder};
use crate::paths::{join, join_path, Platform};
use crate::text::{
    has_pair, lemma_dec_head,
    append_args, arg_view, chars_of, dec, dec_int, dec_string, is_whitespace, is_ws, push_arg,
    push_arg_owned, push_char, push_dec, push_dec_i64, push_dec_pad2, push_dec_pad4, push_str,
    string_from_chars, string_of, zero_pad,
};
use crate::x11::MonGeom;

verus! {

/// The characters of an optional string.
pub open spec fn opt_view(o: Option<String>) -> Option<Seq<char>> {
    match o {
        Some(s) => Some(s@),
        None => None,
    }
}

// ---------------------------------------------------------------------
// Output file
// ---------------------------------------------------------------------

/// The timestamp `[year][month][day]-[hour][minute][second]` as the `time`
/// crate formats it: a sign for negative years, the year's magnitude
/// padded to four digits, every other part padded to two.
pub open spec fn stamp_spec(year: int, month: u8, day: u8, hour: u8, minute: u8, second: u8) -> Seq<
    char,
> {
    (if year < 0 {
        seq!['-']
    } else {
        seq![]
    }) + zero_pad(dec((if year < 0 {
        -year
    } else {
        year
    }) as nat), 4) + zero_pad(dec(month as nat), 2) + zero_pad(dec(day as nat), 2) + seq!['-']
        + zero_pad(dec(hour as nat), 2) + zero_pad(dec(minute as nat), 2) + zero_pad(
        dec(second as nat),
        2,
    )
}

/// The timestamp used in a recording's file name (see `stamp_spec`). The
/// year is within the range of the `time` crate's dates.
pub fn timestamp(year: i32, month: u8, day: u8, hour: u8, minute: u8, second: u8) -> (r: String)
    requires
        -9999 <= year <= 9999,
    ensures
        r@ == stamp_spec(year as int, month, day, hour, minute, second),
{
    let mut s = String::new();
    let mag: u64 = if year < 0 {
        push_char(&mut s, '-');
        (-(year as i64)) as u64
    } else {
        year as u64
    };
    push_dec_pad4(&mut s, mag);
    push_dec_pad2(&mut s, month as u64);
    push_dec_pad2(&mut s, day as u64);
    push_char(&mut s, '-');
    push_dec_pad2(&mut s, hour as u64);
    push_dec_pad2(&mut s, minute as u64);
    push_dec_pad2(&mut s, second as u64);
    assert(s@ =~= stamp_spec(year as int, month, day, hour, minute, second));
    s
}

/// The file name `litecap-<stamp>.mp4`, with `recording` in place of a
/// timestamp that could not be formatted.
pub open spec fn output_name_spec(stamp: Option<Seq<char>>) -> Seq<char> {
    "litecap-"@ + match stamp {
        Some(s) => s,
        None => "recording"@,
    } + ".mp4"@
}

/// The recording's path: `output_name_spec(stamp)` inside `output_dir`.
pub fn output_path(p: Platform, output_dir: &str, stamp: Option<&str>) -> (r: String)
    ensures
        r@ == join(
            p,
            output_dir@,
            output_name_spec(
                match stamp {
                    Some(s) => Some(s@),
                    None => None,
                },
            ),
        ),
{
    let mut name = string_of("litecap-");
    match stamp {
        Some(s) => push_str(&mut name, s),
        None => push_str(&mut name, "recording"),
    }
    push_str(&mut name, ".mp4");
    assert(name@ =~= output_name_spec(
        match stamp {
            Some(s) => Some(s@),
            None => None,
        },
    ));
    join_path(p, output_dir, name.as_str())
}

// ---------------------------------------------------------------------
// Video filter
// ---------------------------------------------------------------------

/// The scaling filter: with the preset, fit into 1920x1080 preserving the
/// aspect ratio and pad to exactly 1920x1080; otherwise limit the height
/// to `max_height` (width even, aspect kept) when one is set.
pub open spec fn scale_spec(cfg: &Config) -> Option<Seq<char>> {
    if cfg.preset_1080p60 {
        Some(
            "scale=1920:1080:force_original_aspect_ratio=decrease,pad=1920:1080:(ow-iw)/2:(oh-ih)/2"@,
        )
    } else {
        match cfg.max_height {
            Some(h) => Some("scale=-2:"@ + dec(h as nat)),
            None => None,
        }
    }
}

/// The `-vf` value: the scaling filter, followed (for VAAPI) by the upload
/// to the GPU surface format; `None` when no filter is needed.
pub open spec fn video_filter_spec(cfg: &Config, enc: VideoEncoder) -> Option<Seq<char>> {
    if enc == VideoEncoder::Vaapi {
        Some(
            match scale_spec(cfg) {
                Some(s) => s + ","@ + "format=nv12,hwupload"@,
                None => "format=nv12,hwupload"@,
            },
        )
    } else {
        scale_spec(cfg)
    }
}

/// Builds the video filter chain (scale, then any encoder-specific
/// pixel-format conversion) as a single `-vf` value, or `None` if no filter
/// is needed.
pub fn video_filter(cfg: &Config, enc: VideoEncoder) -> (r: Option<String>)
    ensures
        match r {
            Some(s) => video_filter_spec(cfg, enc) == Some(s@),
            None => video_filter_spec(cfg, enc) is None,
        },
{
    let scale: Option<String> = if cfg.preset_1080p60 {
        Some(
            string_of(
                "scale=1920:1080:force_original_aspect_ratio=decrease,pad=1920:1080:(ow-iw)/2:(oh-ih)/2",
            ),
        )
    } else {
        match cfg.max_height {
            Some(h) => {
                let mut s = string_of("scale=-2:");
                push_dec(&mut s, h as u64);
                Some(s)
            },
            None => None,
        }
    };
    assert(match scale {
        Some(s) => scale_spec(cfg) == Some(s@),
        None => scale_spec(cfg) is None,
    });
    match enc {
        VideoEncoder::Vaapi => {
            let mut out = match scale {
                Some(s) => {
                    let mut s = s;
                    push_str(&mut s, ",");
                    s
                },
                None => String::new(),
            };
            push_str(&mut out, "format=nv12,hwupload");
            proof {
                match scale_spec(cfg) {
                    Some(sc) => assert(out@ =~= sc + ","@ + "format=nv12,hwupload"@),
                    None => assert(out@ =~= "format=nv12,hwupload"@),
                }
            }
            Some(out)
        },
        _ => scale,
    }
}

/// Law: with the 1920x1080 @ 60 preset enabled, the frame rate and the
/// video filter depend neither on the configured `fps` nor on
/// `max_height`.
pub proof fn law_preset_overrides(a: Config, b: Config, enc: VideoEncoder)
    requires
        a.preset_1080p60,
        b.preset_1080p60,
    ensures
        a.spec_effective_fps() == b.spec_effective_fps() == 60,
        video_filter_spec(&a, enc) == video_filter_spec(&b, enc),
{
}

// ---------------------------------------------------------------------
// Audio inputs and filters
// ---------------------------------------------------------------------

/// Resample and mix audio inputs `a` and `b` into `[aout]`.
pub open spec fn mix_filter(a: nat, b: nat) -> Seq<char> {
    "["@ + dec(a) + ":a]aresample=async=1[a1];["@ + dec(b)
        + ":a]aresample=async=1[a2];[a1][a2]amix=inputs=2:duration=longest[aout]"@
}

/// Resample audio input `a` into `[aout]`.
pub open spec fn single_filter(a: nat) -> Seq<char> {
    "["@ + dec(a) + ":a]aresample=async=1[aout]"@
}

/// The `-filter_complex` arguments for the audio inputs that follow
/// `first` video inputs: mixed when both system sound and microphone are
/// present, resampled when only one is, none when neither is.
pub open spec fn audio_filter_spec(first: nat, sys: bool, mic: bool) -> Seq<Seq<char>> {
    if sys && mic {
        seq!["-filter_complex"@, mix_filter(first, first + 1)]
    } else if sys || mic {
        seq!["-filter_complex"@, single_filter(first)]
    } else {
        seq![]
    }
}

fn mix_filter_string(a: u64, b: u64) -> (r: String)
    ensures
        r@ == mix_filter(a as nat, b as nat),
{
    let mut s = string_of("[");
    push_dec(&mut s, a);
    push_str(&mut s, ":a]aresample=async=1[a1];[");
    push_dec(&mut s, b);
    push_str(&mut s, ":a]aresample=async=1[a2];[a1][a2]amix=inputs=2:duration=longest[aout]");
    assert(s@ =~= mix_filter(a as nat, b as nat));
    s
}

fn single_filter_string(a: u64) -> (r: String)
    ensures
        r@ == single_filter(a as nat),
{
    let mut s = string_of("[");
    push_dec(&mut s, a);
    push_str(&mut s, ":a]aresample=async=1[aout]");
    assert(s@ =~= single_filter(a as nat));
    s
}

/// Appends the audio filter for the audio inputs after the first
/// `video_input_count` inputs; returns whether there is any audio.
pub fn append_audio_filter(args: &mut Vec<String>, video_input_count: usize, sys_ok: bool, mic_ok: bool)
    -> (r: bool)
    requires
        video_input_count < u64::MAX,
    ensures
        r == (sys_ok || mic_ok),
        arg_view(final(args)@) == arg_view(old(args)@) + audio_filter_spec(
            video_input_count as nat,
            sys_ok,
            mic_ok,
        ),
{
    let a = video_input_count as u64;
    let ghost before = arg_view(args@);
    if sys_ok && mic_ok {
        push_arg(args, "-filter_complex");
        push_arg_owned(args, mix_filter_string(a, a + 1));
        assert(arg_view(args@) =~= before + audio_filter_spec(a as nat, true, true));
        true
    } else if sys_ok || mic_ok {
        push_arg(args, "-filter_complex");
        push_arg_owned(args, single_filter_string(a));
        assert(arg_view(args@) =~= before + audio_filter_spec(a as nat, sys_ok, mic_ok));
        true
    } else {
        assert(arg_view(args@) =~= before + audio_filter_spec(a as nat, false, false));
        false
    }
}

/// One raw float audio input read from the loopback socket on `port`.
pub open spec fn socket_input_spec(port: u16, info: StreamInfo) -> Seq<Seq<char>> {
    seq![
        "-f"@,
        "f32le"@,
        "-ar"@,
        dec(info.sample_rate as nat),
        "-ac"@,
        dec(info.channels as nat),
        "-i"@,
        "tcp://127.0.0.1:"@ + dec(port as nat),
    ]
}

fn push_socket_input(args: &mut Vec<String>, port: u16, info: StreamInfo)
    ensures
        arg_view(final(args)@) == arg_view(old(args)@) + socket_input_spec(port, info),
{
    let ghost before = arg_view(args@);
    push_arg(args, "-f");
    push_arg(args, "f32le");
    push_arg(args, "-ar");
    push_arg_owned(args, dec_string(info.sample_rate as u64));
    push_arg(args, "-ac");
    push_arg_owned(args, dec_string(info.channels as u64));
    push_arg(args, "-i");
    let mut url = string_of("tcp://127.0.0.1:");
    push_dec(&mut url, port as u64);
    push_arg_owned(args, url);
    assert(arg_view(args@) =~= before + socket_input_spec(port, info));
}

// ---------------------------------------------------------------------
// Whole command lines
// ---------------------------------------------------------------------

/// Twice the frame rate, as a `u32` computed with wrapping (the keyframe
/// interval).
pub open spec fn gop_spec(fps: u32) -> u32 {
    ((2 * (fps as int)) % 0x1_0000_0000) as u32
}

/// Everything after the inputs: stream mapping, video filter, encoder and
/// quality, AAC audio when there is audio, a keyframe every two seconds, no
/// B-frames, fragmented MP4 to `out_path`.
pub open spec fn output_args_spec(cfg: &Config, enc: VideoEncoder, audio: bool, out_path: Seq<char>) -> Seq<
    Seq<char>,
> {
    seq!["-map"@, "0:v"@] + (if audio {
        seq!["-map"@, "[aout]"@]
    } else {
        seq![]
    }) + (match video_filter_spec(cfg, enc) {
        Some(vf) => seq!["-vf"@, vf],
        None => seq![],
    }) + encode_args_spec(enc) + quality_args_spec(enc, cfg.quality) + (if audio {
        seq!["-c:a"@, "aac"@, "-b:a"@, "160k"@]
    } else {
        seq![]
    }) + seq![
        "-g"@,
        dec(gop_spec(cfg.spec_effective_fps()) as nat),
        "-bf"@,
        "0"@,
        "-movflags"@,
        "+frag_keyframe+empty_moov"@,
        "-f"@,
        "mp4"@,
        out_path,
    ]
}

fn push_map_and_filter(args: &mut Vec<String>, cfg: &Config, enc: VideoEncoder, audio: bool)
    ensures
        arg_view(final(args)@) == arg_view(old(args)@) + seq!["-map"@, "0:v"@] + (if audio {
            seq!["-map"@, "[aout]"@]
        } else {
            seq![]
        }) + (match video_filter_spec(cfg, enc) {
            Some(vf) => seq!["-vf"@, vf],
            None => seq![],
        }),
{
    let ghost before = arg_view(args@);
    push_arg(args, "-map");
    push_arg(args, "0:v");
    if audio {
        push_arg(args, "-map");
        push_arg(args, "[aout]");
    }
    let ghost s1 = arg_view(args@);
    assert(s1 =~= before + seq!["-map"@, "0:v"@] + (if audio {
        seq!["-map"@, "[aout]"@]
    } else {
        seq![]
    }));
    match video_filter(cfg, enc) {
        Some(vf) => {
            push_arg(args, "-vf");
            push_arg_owned(args, vf);
        },
        None => {},
    }
    assert(arg_view(args@) =~= s1 + match video_filter_spec(cfg, enc) {
        Some(vf) => seq!["-vf"@, vf],
        None => seq![],
    });
}

fn push_codec_args(args: &mut Vec<String>, cfg: &Config, enc: VideoEncoder, audio: bool)
    ensures
        arg_view(final(args)@) == arg_view(old(args)@) + encode_args_spec(enc) + quality_args_spec(
            enc,
            cfg.quality,
        ) + (if audio {
            seq!["-c:a"@, "aac"@, "-b:a"@, "160k"@]
        } else {
            seq![]
        }),
{
    let ghost before = arg_view(args@);
    append_args(args, enc.encode_args());
    append_args(args, enc.quality_args(cfg.quality));
    let ghost s3 = arg_view(args@);
    if audio {
        push_arg(args, "-c:a");
        push_arg(args, "aac");
        push_arg(args, "-b:a");
        push_arg(args, "160k");
    }
    assert(arg_view(args@) =~= s3 + (if audio {
        seq!["-c:a"@, "aac"@, "-b:a"@, "160k"@]
    } else {
        seq![]
    }));
}

fn push_mp4_tail(args: &mut Vec<String>, cfg: &Config, out_path: &str)
    ensures
        arg_view(final(args)@) == arg_view(old(args)@) + seq![
            "-g"@,
            dec(gop_spec(cfg.spec_effective_fps()) as nat),
            "-bf"@,
            "0"@,
            "-movflags"@,
            "+frag_keyframe+empty_moov"@,
            "-f"@,
            "mp4"@,
            out_path@,
        ],
{
    let ghost before = arg_view(args@);
    push_arg(args, "-g");
    let gop = cfg.effective_fps().wrapping_mul(2);
    assert(gop == gop_spec(cfg.spec_effective_fps()));
    push_arg_owned(args, dec_string(gop as u64));
    push_arg(args, "-bf");
    push_arg(args, "0");
    push_arg(args, "-movflags");
    push_arg(args, "+frag_keyframe+empty_moov");
    push_arg(args, "-f");
    push_arg(args, "mp4");
    push_arg(args, out_path);
    assert(arg_view(args@) =~= before + seq![
        "-g"@,
        dec(gop_spec(cfg.spec_effective_fps()) as nat),
        "-bf"@,
        "0"@,
        "-movflags"@,
        "+frag_keyframe+empty_moov"@,
        "-f"@,
        "mp4"@,
        out_path@,
    ]);
}

fn push_output_args(args: &mut Vec<String>, cfg: &Config, enc: VideoEncoder, audio: bool, out_path: &str)
    ensures
        arg_view(final(args)@) == arg_view(old(args)@) + output_args_spec(cfg, enc, audio, out_path@),
{
    let ghost before = arg_view(args@);
    push_map_and_filter(args, cfg, enc, audio);
    push_codec_args(args, cfg, enc, audio);
    push_mp4_tail(args, cfg, out_path);
    assert(arg_view(args@) =~= before + output_args_spec(cfg, enc, audio, out_path@));
}

/// No argument of `args` is `a`.
pub open spec fn free_of(args: Seq<Seq<char>>, a: Seq<char>) -> bool {
    forall|i: int| 0 <= i < args.len() ==> args[i] != a
}

proof fn lemma_free_of_concat(x: Seq<Seq<char>>, y: Seq<Seq<char>>, a: Seq<char>)
    requires
        free_of(x, a),
        free_of(y, a),
    ensures
        free_of(x + y, a),
{
    assert forall|i: int| 0 <= i < (x + y).len() implies (x + y)[i] != a by {
        if i < x.len() {
            assert((x + y)[i] == x[i]);
        } else {
            assert((x + y)[i] == y[i - x.len()]);
        }
    }
}

proof fn lemma_not_vf(a: Seq<char>)
    requires
        a.len() != 3 || a[0] != '-' || a[1] != 'v' || a[2] != 'f',
    ensures
        a != "-vf"@,
{
    reveal_strlit("-vf");
}

/// The arguments other than the video filter's own are never `-vf`.
proof fn lemma_output_pieces_free(cfg: &Config, enc: VideoEncoder, audio: bool, out_path: Seq<char>)
    requires
        out_path != "-vf"@,
    ensures
        free_of(
            seq!["-map"@, "0:v"@] + (if audio {
                seq!["-map"@, "[aout]"@]
            } else {
                seq![]
            }),
            "-vf"@,
        ),
        free_of(
            encode_args_spec(enc) + quality_args_spec(enc, cfg.quality) + (if audio {
                seq!["-c:a"@, "aac"@, "-b:a"@, "160k"@]
            } else {
                seq![]
            }) + seq![
                "-g"@,
                dec(gop_spec(cfg.spec_effective_fps()) as nat),
                "-bf"@,
                "0"@,
                "-movflags"@,
                "+frag_keyframe+empty_moov"@,
                "-f"@,
                "mp4"@,
                out_path,
            ],
            "-vf"@,
        ),
        video_filter_spec(cfg, enc) matches Some(vf) ==> vf != "-vf"@,
{
    reveal_strlit("-vf");
    reveal_strlit("-map");
    reveal_strlit("0:v");
    reveal_strlit("[aout]");
    reveal_strlit("-c:v");
    reveal_strlit("h264_nvenc");
    reveal_strlit("-preset");
    reveal_strlit("p4");
    reveal_strlit("h264_qsv");
    reveal_strlit("h264_amf");
    reveal_strlit("-rc");
    reveal_strlit("cqp");
    reveal_strlit("-vaapi_device");
    reveal_strlit("/dev/dri/renderD128");
    reveal_strlit("h264_vaapi");
    reveal_strlit("libx264");
    reveal_strlit("veryfast");
    reveal_strlit("-cq");
    reveal_strlit("-global_quality");
    reveal_strlit("-qp_i");
    reveal_strlit("-qp_p");
    reveal_strlit("-qp");
    reveal_strlit("-crf");
    reveal_strlit("-c:a");
    reveal_strlit("aac");
    reveal_strlit("-b:a");
    reveal_strlit("160k");
    reveal_strlit("-g");
    reveal_strlit("-bf");
    reveal_strlit("0");
    reveal_strlit("-movflags");
    reveal_strlit("+frag_keyframe+empty_moov");
    reveal_strlit("-f");
    reveal_strlit("mp4");
    reveal_strlit(
        "scale=1920:1080:force_original_aspect_ratio=decrease,pad=1920:1080:(ow-iw)/2:(oh-ih)/2",
    );
    reveal_strlit("scale=-2:");
    reveal_strlit(",");
    reveal_strlit("format=nv12,hwupload");
    let q = dec(cfg.quality as nat);
    let g = dec(gop_spec(cfg.spec_effective_fps()) as nat);
    lemma_dec_head(cfg.quality as nat);
    lemma_dec_head(gop_spec(cfg.spec_effective_fps()) as nat);
    assert(q != "-vf"@ && g != "-vf"@) by {
        assert(q[0] != "-vf"@[0]);
        assert(g[0] != "-vf"@[0]);
    }
    let m = seq!["-map"@, "0:v"@] + (if audio {
        seq!["-map"@, "[aout]"@]
    } else {
        seq![]
    });
    assert("-map"@ != "-vf"@ && "0:v"@ != "-vf"@ && "[aout]"@ != "-vf"@) by {
        assert("-map"@.len() != "-vf"@.len());
        assert("[aout]"@.len() != "-vf"@.len());
        assert("0:v"@[0] != "-vf"@[0]);
    }
    if audio {
        lemma_free_of_concat(seq!["-map"@, "0:v"@], seq!["-map"@, "[aout]"@], "-vf"@);
    } else {
        lemma_free_of_concat(seq!["-map"@, "0:v"@], seq![], "-vf"@);
    }
    assert(free_of(m, "-vf"@));
    let e = encode_args_spec(enc);
    let qa = quality_args_spec(enc, cfg.quality);
    let au: Seq<Seq<char>> = if audio {
        seq!["-c:a"@, "aac"@, "-b:a"@, "160k"@]
    } else {
        seq![]
    };
    let tail = seq![
        "-g"@,
        g,
        "-bf"@,
        "0"@,
        "-movflags"@,
        "+frag_keyframe+empty_moov"@,
        "-f"@,
        "mp4"@,
        out_path,
    ];
    lemma_not_vf("-c:v"@);
    lemma_not_vf("h264_nvenc"@);
    lemma_not_vf("-preset"@);
    lemma_not_vf("p4"@);
    lemma_not_vf("h264_qsv"@);
    lemma_not_vf("h264_amf"@);
    lemma_not_vf("-rc"@);
    lemma_not_vf("cqp"@);
    lemma_not_vf("-vaapi_device"@);
    lemma_not_vf("/dev/dri/renderD128"@);
    lemma_not_vf("h264_vaapi"@);
    lemma_not_vf("libx264"@);
    lemma_not_vf("veryfast"@);
    lemma_not_vf("-cq"@);
    lemma_not_vf("-global_quality"@);
    lemma_not_vf("-qp_i"@);
    lemma_not_vf("-qp_p"@);
    lemma_not_vf("-qp"@);
    lemma_not_vf("-crf"@);
    lemma_not_vf("-c:a"@);
    lemma_not_vf("aac"@);
    lemma_not_vf("-b:a"@);
    lemma_not_vf("160k"@);
    lemma_not_vf("-g"@);
    lemma_not_vf("-bf"@);
    lemma_not_vf("0"@);
    lemma_not_vf("-movflags"@);
    lemma_not_vf("+frag_keyframe+empty_moov"@);
    lemma_not_vf("-f"@);
    lemma_not_vf("mp4"@);
    assert(free_of(e, "-vf"@));
    assert(free_of(qa, "-vf"@));
    assert(free_of(au, "-vf"@));
    assert(free_of(tail, "-vf"@));
    lemma_free_of_concat(e, qa, "-vf"@);
    lemma_free_of_concat(e + qa, au, "-vf"@);
    lemma_free_of_concat(e + qa + au, tail, "-vf"@);
    match video_filter_spec(cfg, enc) {
        Some(vf) => {
            assert(vf[0] != '-');
            assert(vf[0] != "-vf"@[0]);
        },
        None => {},
    }
}

/// One video filter: a recording's output arguments carry `-vf` exactly
/// once, directly followed by the whole chain of `video_filter` (scaling,
/// then any pixel-format upload), when there is a chain, and not at all
/// otherwise. The output path is the caller's and is left out.
pub proof fn law_single_video_filter(cfg: &Config, enc: VideoEncoder, audio: bool, out_path: Seq<char>)
    requires
        out_path != "-vf"@,
    ensures
        ({
            let args = output_args_spec(cfg, enc, audio, out_path);
            let k: int = if audio {
                4
            } else {
                2
            };
            match video_filter_spec(cfg, enc) {
                Some(vf) => {
                    &&& args[k] == "-vf"@
                    &&& args[k + 1] == vf
                    &&& forall|i: int| 0 <= i < args.len() && args[i] == "-vf"@ ==> i == k
                },
                None => free_of(args, "-vf"@),
            }
        }),
{
    lemma_output_pieces_free(cfg, enc, audio, out_path);
    let m = seq!["-map"@, "0:v"@] + (if audio {
        seq!["-map"@, "[aout]"@]
    } else {
        seq![]
    });
    let rest = encode_args_spec(enc) + quality_args_spec(enc, cfg.quality) + (if audio {
        seq!["-c:a"@, "aac"@, "-b:a"@, "160k"@]
    } else {
        seq![]
    }) + seq![
        "-g"@,
        dec(gop_spec(cfg.spec_effective_fps()) as nat),
        "-bf"@,
        "0"@,
        "-movflags"@,
        "+frag_keyframe+empty_moov"@,
        "-f"@,
        "mp4"@,
        out_path,
    ];
    let args = output_args_spec(cfg, enc, audio, out_path);
    match video_filter_spec(cfg, enc) {
        Some(vf) => {
            let v = seq!["-vf"@, vf];
            assert(args =~= m + v + rest);
            assert forall|i: int| 0 <= i < args.len() && args[i] == "-vf"@ implies i == m.len() by {
                if i < m.len() {
                    assert(args[i] == m[i]);
                } else if i == m.len() + 1 {
                    assert(args[i] == vf);
                } else if i > m.len() + 1 {
                    assert(args[i] == rest[i - m.len() - 2]);
                }
            }
        },
        None => {
            assert(args =~= m + rest);
            lemma_free_of_concat(m, rest, "-vf"@);
        },
    }
}

/// The raw BGRA video input read from ffmpeg's stdin.
pub open spec fn rawvideo_input_spec(width: u32, height: u32, fps: u32) -> Seq<Seq<char>> {
    seq![
        "-hide_banner"@,
        "-v"@,
        "warning"@,
        "-f"@,
        "rawvideo"@,
        "-pixel_format"@,
        "bgra"@,
        "-video_size"@,
        dec(width as nat) + "x"@ + dec(height as nat),
        "-framerate"@,
        dec(fps as nat),
        "-i"@,
        "pipe:0"@,
    ]
}

fn push_rawvideo_input(args: &mut Vec<String>, width: u32, height: u32, fps: u32)
    ensures
        arg_view(final(args)@) == arg_view(old(args)@) + rawvideo_input_spec(width, height, fps),
{
    let ghost before = arg_view(args@);
    push_arg(args, "-hide_banner");
    push_arg(args, "-v");
    push_arg(args, "warning");
    push_arg(args, "-f");
    push_arg(args, "rawvideo");
    push_arg(args, "-pixel_format");
    push_arg(args, "bgra");
    push_arg(args, "-video_size");
    let mut size = String::new();
    push_dec(&mut size, width as u64);
    push_str(&mut size, "x");
    push_dec(&mut size, height as u64);
    push_arg_owned(args, size);
    push_arg(args, "-framerate");
    push_arg_owned(args, dec_string(fps as u64));
    push_arg(args, "-i");
    push_arg(args, "pipe:0");
    assert(arg_view(args@) =~= before + rawvideo_input_spec(width, height, fps));
}

/// The Windows command line: raw frames from the pacer on stdin, then the
/// system-sound and microphone loopback sockets that were bound (each with
/// its device's true rate and channel count), mixed or resampled into one
/// audio track.
pub open spec fn windows_args_spec(
    cfg: &Config,
    enc: VideoEncoder,
    width: u32,
    height: u32,
    sys: Option<(u16, StreamInfo)>,
    mic: Option<(u16, StreamInfo)>,
    out_path: Seq<char>,
) -> Seq<Seq<char>> {
    rawvideo_input_spec(width, height, cfg.spec_effective_fps()) + (match sys {
        Some((port, info)) => socket_input_spec(port, info),
        None => seq![],
    }) + (match mic {
        Some((port, info)) => socket_input_spec(port, info),
        None => seq![],
    }) + audio_filter_spec(1, sys is Some, mic is Some) + output_args_spec(
        cfg,
        enc,
        sys is Some || mic is Some,
        out_path,
    )
}

/// The ffmpeg arguments of a Windows recording (see `windows_args_spec`).
pub fn build_ffmpeg_args_windows(
    cfg: &Config,
    enc: VideoEncoder,
    width: u32,
    height: u32,
    sys: Option<(u16, StreamInfo)>,
    mic: Option<(u16, StreamInfo)>,
    out_path: &str,
) -> (r: Vec<String>)
    ensures
        arg_view(r@) == windows_args_spec(cfg, enc, width, height, sys, mic, out_path@),
{
    let mut args: Vec<String> = Vec::new();
    push_rawvideo_input(&mut args, width, height, cfg.effective_fps());
    let ghost s0 = arg_view(args@);
    match sys {
        Some((port, info)) => push_socket_input(&mut args, port, info),
        None => {},
    }
    let ghost s1 = arg_view(args@);
    assert(s1 =~= s0 + match sys {
        Some((port, info)) => socket_input_spec(port, info),
        None => seq![],
    });
    match mic {
        Some((port, info)) => push_socket_input(&mut args, port, info),
        None => {},
    }
    let ghost s2 = arg_view(args@);
    assert(s2 =~= s1 + match mic {
        Some((port, info)) => socket_input_spec(port, info),
        None => seq![],
    });
    let has_audio = append_audio_filter(&mut args, 1, sys.is_some(), mic.is_some());
    push_output_args(&mut args, cfg, enc, has_audio, out_path);
    assert(arg_view(args@) =~= windows_args_spec(cfg, enc, width, height, sys, mic, out_path@));
    args
}

/// Something the user is told while a recording starts.
#[derive(Debug, Clone, Copy, PartialEq, Eq, Structural)]
pub enum Notice {
    /// ffmpeg cannot read PulseAudio input; recording without audio.
    AudioUnavailable,
    /// No system-sound source; recording without it.
    SystemAudioUnavailable,
    /// No microphone; recording without it.
    MicrophoneUnavailable,
}

impl Notice {
    /// The notification text.
    pub open spec fn text_spec(self) -> Seq<char> {
        match self {
            Notice::AudioUnavailable => "Audio unavailable in this FFmpeg build (needs a pulse-enabled build)"@,
            Notice::SystemAudioUnavailable => "System audio unavailable, recording without it"@,
            Notice::MicrophoneUnavailable => "Microphone unavailable, recording without it"@,
        }
    }

    /// The notification text.
    pub fn text(self) -> (r: &'static str)
        ensures
            r@ == self.text_spec(),
    {
        match self {
            Notice::AudioUnavailable => "Audio unavailable in this FFmpeg build (needs a pulse-enabled build)",
            Notice::SystemAudioUnavailable => "System audio unavailable, recording without it",
            Notice::MicrophoneUnavailable => "Microphone unavailable, recording without it",
        }
    }
}

/// The notices for audio sources asked for that failed: system sound's
/// first, then the microphone's.
pub open spec fn fallback_notices_spec(sys_wanted: bool, sys_ok: bool, mic_wanted: bool, mic_ok: bool) -> Seq<Notice> {
    (if sys_wanted && !sys_ok {
        seq![Notice::SystemAudioUnavailable]
    } else {
        seq![]
    }) + (if mic_wanted && !mic_ok {
        seq![Notice::MicrophoneUnavailable]
    } else {
        seq![]
    })
}

/// Which audio sources a Windows recording keeps at one step (probing the
/// device, then accepting its socket and opening its stream): a source
/// goes on when it was asked for and the step succeeded for it; one asked
/// for that failed is dropped with its notice, and the recording goes on
/// without it.
pub fn audio_fallback(sys_wanted: bool, sys_ok: bool, mic_wanted: bool, mic_ok: bool) -> (r: (bool, bool, Vec<Notice>))
    ensures
        r.0 == (sys_wanted && sys_ok),
        r.1 == (mic_wanted && mic_ok),
        r.2@ == fallback_notices_spec(sys_wanted, sys_ok, mic_wanted, mic_ok),
{
    let mut notices: Vec<Notice> = Vec::new();
    if sys_wanted && !sys_ok {
        notices.push(Notice::SystemAudioUnavailable);
    }
    if mic_wanted && !mic_ok {
        notices.push(Notice::MicrophoneUnavailable);
    }
    assert(notices@ =~= fallback_notices_spec(sys_wanted, sys_ok, mic_wanted, mic_ok));
    (sys_wanted && sys_ok, mic_wanted && mic_ok, notices)
}

/// The arguments of the check that ffmpeg can read PulseAudio: a 0.1 s read
/// of the default source, discarded.
pub fn pulse_probe_args() -> (r: Vec<String>)
    ensures
        arg_view(r@) == seq![
            "-v"@,
            "error"@,
            "-f"@,
            "pulse"@,
            "-i"@,
            "default"@,
            "-t"@,
            "0.1"@,
            "-f"@,
            "null"@,
            "-"@,
        ],
{
    let mut r: Vec<String> = Vec::new();
    push_arg(&mut r, "-v");
    push_arg(&mut r, "error");
    push_arg(&mut r, "-f");
    push_arg(&mut r, "pulse");
    push_arg(&mut r, "-i");
    push_arg(&mut r, "default");
    push_arg(&mut r, "-t");
    push_arg(&mut r, "0.1");
    push_arg(&mut r, "-f");
    push_arg(&mut r, "null");
    push_arg(&mut r, "-");
    assert(arg_view(r@) =~= seq![
        "-v"@,
        "error"@,
        "-f"@,
        "pulse"@,
        "-i"@,
        "default"@,
        "-t"@,
        "0.1"@,
        "-f"@,
        "null"@,
        "-"@,
    ]);
    r
}

/// `s` without leading whitespace.
pub open spec fn trim_start(s: Seq<char>) -> Seq<char>
    decreases s.len(),
{
    if s.len() > 0 && is_ws(s[0]) {
        trim_start(s.drop_first())
    } else {
        s
    }
}

/// `s` without trailing whitespace.
pub open spec fn trim_end(s: Seq<char>) -> Seq<char>
    decreases s.len(),
{
    if s.len() > 0 && is_ws(s.last()) {
        trim_end(s.drop_last())
    } else {
        s
    }
}

/// `str::trim`.
pub open spec fn trim(s: Seq<char>) -> Seq<char> {
    trim_end(trim_start(s))
}

/// The default PulseAudio sink named by `pactl get-default-sink`'s output:
/// the output trimmed of surrounding whitespace, or none when that is
/// empty.
pub fn parse_default_sink(output: &str) -> (r: Option<String>)
    ensures
        trim(output@).len() == 0 ==> r is None,
        trim(output@).len() > 0 ==> (r matches Some(s) && s@ == trim(output@)),
{
    let v = chars_of(output);
    let n = v.len();
    let mut a: usize = 0;
    assert(v@.subrange(0, n as int) =~= v@);
    while a < n && is_whitespace(v[a])
        invariant
            a <= n == v@.len(),
            trim_start(v@) == trim_start(v@.subrange(a as int, n as int)),
        decreases n - a,
    {
        assert(v@.subrange(a as int, n as int).drop_first() =~= v@.subrange(a + 1, n as int));
        a += 1;
    }
    assert(trim_start(v@.subrange(a as int, n as int)) == v@.subrange(a as int, n as int));
    let mut b: usize = n;
    while b > a && is_whitespace(v[b - 1])
        invariant
            a <= b <= n == v@.len(),
            trim_start(v@) == v@.subrange(a as int, n as int),
            trim(v@) == trim_end(v@.subrange(a as int, b as int)),
        decreases b,
    {
        assert(v@.subrange(a as int, b as int).drop_last() =~= v@.subrange(a as int, b - 1));
        b -= 1;
    }
    assert(trim_end(v@.subrange(a as int, b as int)) == v@.subrange(a as int, b as int));
    if a == b {
        None
    } else {
        Some(string_from_chars(&v, a, b))
    }
}

/// The PulseAudio inputs of a Linux recording: none unless system sound or
/// microphone is enabled and ffmpeg can read PulseAudio; system sound from
/// the default sink's monitor when there is a default sink; the microphone
/// from the default source.
pub open spec fn linux_audio_spec(
    system_audio: bool,
    microphone: bool,
    pulse_ok: bool,
    default_sink: Option<Seq<char>>,
) -> (Seq<Seq<char>>, bool, bool) {
    if !(system_audio || microphone) || !pulse_ok {
        (seq![], false, false)
    } else {
        let sys_ok = system_audio && default_sink is Some;
        let sys_args = if sys_ok {
            seq!["-f"@, "pulse"@, "-i"@, default_sink->0 + ".monitor"@]
        } else {
            seq![]
        };
        let mic_args = if microphone {
            seq!["-f"@, "pulse"@, "-i"@, "default"@]
        } else {
            seq![]
        };
        (sys_args + mic_args, sys_ok, microphone)
    }
}

/// The notices a Linux recording's audio setup gives: ffmpeg without
/// PulseAudio when audio was wanted, or no default sink when system sound
/// was wanted.
pub open spec fn linux_audio_notices(
    system_audio: bool,
    microphone: bool,
    pulse_ok: bool,
    default_sink_found: bool,
) -> Seq<Notice> {
    if !(system_audio || microphone) {
        seq![]
    } else if !pulse_ok {
        seq![Notice::AudioUnavailable]
    } else if system_audio && !default_sink_found {
        seq![Notice::SystemAudioUnavailable]
    } else {
        seq![]
    }
}

/// Appends the PulseAudio inputs (see `linux_audio_spec`); returns whether
/// system sound and microphone inputs were added, and the notices to show.
/// `pulse_ok` is whether the PulseAudio check succeeded and
/// `default_sink` the default sink, as far as they were needed.
pub fn linux_audio_inputs(
    cfg: &Config,
    pulse_ok: bool,
    default_sink: Option<String>,
    args: &mut Vec<String>,
) -> (r: (bool, bool, Vec<Notice>))
    ensures
        ({
            let sink = opt_view(default_sink);
            let (a, sys_ok, mic_ok) = linux_audio_spec(cfg.system_audio, cfg.microphone, pulse_ok, sink);
            &&& arg_view(final(args)@) == arg_view(old(args)@) + a
            &&& r.0 == sys_ok
            &&& r.1 == mic_ok
            &&& r.2@ == linux_audio_notices(cfg.system_audio, cfg.microphone, pulse_ok, sink is Some)
        }),
{
    let ghost before = arg_view(args@);
    let ghost sink = opt_view(default_sink);
    let mut notices: Vec<Notice> = Vec::new();
    if !cfg.system_audio && !cfg.microphone {
        assert(arg_view(args@) =~= before + linux_audio_spec(cfg.system_audio, cfg.microphone, pulse_ok, sink).0);
        assert(notices@ =~= linux_audio_notices(cfg.system_audio, cfg.microphone, pulse_ok, sink is Some));
        return (false, false, notices);
    }
    if !pulse_ok {
        notices.push(Notice::AudioUnavailable);
        assert(arg_view(args@) =~= before + linux_audio_spec(cfg.system_audio, cfg.microphone, pulse_ok, sink).0);
        assert(notices@ =~= linux_audio_notices(cfg.system_audio, cfg.microphone, pulse_ok, sink is Some));
        return (false, false, notices);
    }
    let mut sys_ok = false;
    let mut mic_ok = false;
    if cfg.system_audio {
        match default_sink {
            Some(s) => {
                push_arg(args, "-f");
                push_arg(args, "pulse");
                push_arg(args, "-i");
                let mut m = s;
                push_str(&mut m, ".monitor");
                push_arg_owned(args, m);
                sys_ok = true;
            },
            None => {
                notices.push(Notice::SystemAudioUnavailable);
            },
        }
    }
    if cfg.microphone {
        push_arg(args, "-f");
        push_arg(args, "pulse");
        push_arg(args, "-i");
        push_arg(args, "default");
        mic_ok = true;
    }
    assert(arg_view(args@) =~= before + linux_audio_spec(cfg.system_audio, cfg.microphone, pulse_ok, sink).0);
    assert(notices@ =~= linux_audio_notices(cfg.system_audio, cfg.microphone, pulse_ok, sink is Some));
    (sys_ok, mic_ok, notices)
}

/// The x11grab input: the chosen monitor's area of `display` when the
/// monitor is known, otherwise the whole root screen.
pub open spec fn x11_input_spec(fps: u32, display: Seq<char>, mon: Option<(u32, u32, i32, i32)>) -> Seq<
    Seq<char>,
> {
    seq!["-hide_banner"@, "-v"@, "warning"@, "-f"@, "x11grab"@, "-framerate"@, dec(fps as nat)]
        + match mon {
        Some((w, h, x, y)) => seq![
            "-video_size"@,
            dec(w as nat) + "x"@ + dec(h as nat),
            "-i"@,
            display + "+"@ + dec_int(x as int) + ","@ + dec_int(y as int),
        ],
        None => seq!["-i"@, display],
    }
}

/// The geometry of the monitor at `index`, if there is one.
pub open spec fn monitor_at(monitors: Seq<MonGeom>, index: usize) -> Option<(u32, u32, i32, i32)> {
    if index < monitors.len() {
        let m = monitors[index as int];
        Some((m.w, m.h, m.x, m.y))
    } else {
        None
    }
}

/// The ffmpeg arguments of an X11 recording: the screen grab, the
/// PulseAudio inputs, their filter, and the output.
pub open spec fn x11_args_spec(
    cfg: &Config,
    enc: VideoEncoder,
    display: Seq<char>,
    monitors: Seq<MonGeom>,
    pulse_ok: bool,
    sink: Option<Seq<char>>,
    out_path: Seq<char>,
) -> Seq<Seq<char>> {
    let (a, sys_ok, mic_ok) = linux_audio_spec(cfg.system_audio, cfg.microphone, pulse_ok, sink);
    x11_input_spec(cfg.spec_effective_fps(), display, monitor_at(monitors, cfg.monitor_index)) + a
        + audio_filter_spec(1, sys_ok, mic_ok) + output_args_spec(cfg, enc, sys_ok || mic_ok, out_path)
}

/// The ffmpeg arguments of a Wayland recording: raw frames on stdin, the
/// PulseAudio inputs, their filter, and the output.
pub open spec fn wayland_args_spec(
    cfg: &Config,
    enc: VideoEncoder,
    width: u32,
    height: u32,
    pulse_ok: bool,
    sink: Option<Seq<char>>,
    out_path: Seq<char>,
) -> Seq<Seq<char>> {
    let (a, sys_ok, mic_ok) = linux_audio_spec(cfg.system_audio, cfg.microphone, pulse_ok, sink);
    rawvideo_input_spec(width, height, cfg.spec_effective_fps()) + a + audio_filter_spec(1, sys_ok, mic_ok)
        + output_args_spec(cfg, enc, sys_ok || mic_ok, out_path)
}

/// The ffmpeg arguments of an X11 recording: ffmpeg grabs the screen area
/// of the configured monitor itself, PulseAudio inputs follow; also the
/// notices to show.
pub fn build_x11_args(
    cfg: &Config,
    enc: VideoEncoder,
    display: &str,
    monitors: &Vec<MonGeom>,
    pulse_ok: bool,
    default_sink: Option<String>,
    out_path: &str,
) -> (r: (Vec<String>, Vec<Notice>))
    ensures
        ({
            let sink = opt_view(default_sink);
            &&& arg_view(r.0@) == x11_args_spec(cfg, enc, display@, monitors@, pulse_ok, sink, out_path@)
            &&& r.1@ == linux_audio_notices(cfg.system_audio, cfg.microphone, pulse_ok, sink is Some)
        }),
{
    let mut args: Vec<String> = Vec::new();
    push_arg(&mut args, "-hide_banner");
    push_arg(&mut args, "-v");
    push_arg(&mut args, "warning");
    push_arg(&mut args, "-f");
    push_arg(&mut args, "x11grab");
    push_arg(&mut args, "-framerate");
    push_arg_owned(&mut args, dec_string(cfg.effective_fps() as u64));
    if cfg.monitor_index < monitors.len() {
        let m = &monitors[cfg.monitor_index];
        push_arg(&mut args, "-video_size");
        let mut size = String::new();
        push_dec(&mut size, m.w as u64);
        push_str(&mut size, "x");
        push_dec(&mut size, m.h as u64);
        push_arg_owned(&mut args, size);
        push_arg(&mut args, "-i");
        let mut src = string_of(display);
        push_str(&mut src, "+");
        push_dec_i64(&mut src, m.x as i64);
        push_str(&mut src, ",");
        push_dec_i64(&mut src, m.y as i64);
        push_arg_owned(&mut args, src);
    } else {
        push_arg(&mut args, "-i");
        push_arg(&mut args, display);
    }
    assert(arg_view(args@) =~= x11_input_spec(
        cfg.spec_effective_fps(),
        display@,
        monitor_at(monitors@, cfg.monitor_index),
    ));
    let (sys_ok, mic_ok, notices) = linux_audio_inputs(cfg, pulse_ok, default_sink, &mut args);
    let has_audio = append_audio_filter(&mut args, 1, sys_ok, mic_ok);
    push_output_args(&mut args, cfg, enc, has_audio, out_path);
    (args, notices)
}

/// The ffmpeg arguments of a Wayland recording: raw frames of the
/// negotiated size from the pacer on stdin, PulseAudio inputs after; also
/// the notices to show.
pub fn build_wayland_args(
    cfg: &Config,
    enc: VideoEncoder,
    width: u32,
    height: u32,
    pulse_ok: bool,
    default_sink: Option<String>,
    out_path: &str,
) -> (r: (Vec<String>, Vec<Notice>))
    ensures
        ({
            let sink = opt_view(default_sink);
            &&& arg_view(r.0@) == wayland_args_spec(cfg, enc, width, height, pulse_ok, sink, out_path@)
            &&& r.1@ == linux_audio_notices(cfg.system_audio, cfg.microphone, pulse_ok, sink is Some)
        }),
{
    let mut args: Vec<String> = Vec::new();
    push_rawvideo_input(&mut args, width, height, cfg.effective_fps());
    let (sys_ok, mic_ok, notices) = linux_audio_inputs(cfg, pulse_ok, default_sink, &mut args);
    let has_audio = append_audio_filter(&mut args, 1, sys_ok, mic_ok);
    push_output_args(&mut args, cfg, enc, has_audio, out_path);
    (args, notices)
}

/// The start/stop item's label while recording: `Stop Recording (MM:SS)`,
/// minutes and seconds each at least two digits.
pub open spec fn timer_label_spec(secs: u64) -> Seq<char> {
    "Stop Recording ("@ + zero_pad(dec((secs / 60) as nat), 2) + ":"@ + zero_pad(
        dec((secs % 60) as nat),
        2,
    ) + ")"@
}

/// The start/stop item's label after `secs` seconds of recording.
pub fn timer_label(secs: u64) -> (r: String)
    ensures
        r@ == timer_label_spec(secs),
{
    let mut s = string_of("Stop Recording (");
    push_dec_pad2(&mut s, secs / 60);
    push_str(&mut s, ":");
    push_dec_pad2(&mut s, secs % 60);
    push_str(&mut s, ")");
    assert(s@ =~= timer_label_spec(secs));
    s
}

/// The whole-minute count and the second within the minute, rounded
/// down: the label after `secs` seconds shows `m:s` exactly when `secs` is
/// `60 * m + s` with `s` under a minute.
pub proof fn law_timer_label_minutes(secs: u64, m: nat, s: nat)
    requires
        secs == 60 * m + s,
        s < 60,
    ensures
        timer_label_spec(secs) == "Stop Recording ("@ + zero_pad(dec(m), 2) + ":"@ + zero_pad(dec(s), 2)
            + ")"@,
{
    assert(secs / 60 == m && secs % 60 == s) by (nonlinear_arith)
        requires
            secs == 60 * m + s,
            s < 60,
    ;
}

/// The VAAPI filter chain is the software chain followed by the upload to
/// the GPU's surface format: whatever scaling the settings ask for (a
/// height limit or the 1080p preset) comes first, and the chain always
/// ends with `format=nv12,hwupload`.
pub proof fn law_vaapi_filter_ends_with_upload(cfg: &Config, other: VideoEncoder)
    requires
        other != VideoEncoder::Vaapi,
    ensures
        video_filter_spec(cfg, VideoEncoder::Vaapi) == Some(
            match video_filter_spec(cfg, other) {
                Some(s) => s + ","@ + "format=nv12,hwupload"@,
                None => "format=nv12,hwupload"@,
            },
        ),
        ({
            let v = video_filter_spec(cfg, VideoEncoder::Vaapi)->0;
            &&& v.len() >= "format=nv12,hwupload"@.len()
            &&& v.subrange(v.len() - "format=nv12,hwupload"@.len(), v.len() as int) == "format=nv12,hwupload"@
        }),
{
    let u = "format=nv12,hwupload"@;
    match scale_spec(cfg) {
        Some(s) => {
            let v = s + ","@ + u;
            assert(v.subrange(v.len() - u.len(), v.len() as int) =~= u);
        },
        None => {
            assert(u.subrange(0, u.len() as int) =~= u);
        },
    }
}

proof fn lemma_has_pair_after(p: Seq<Seq<char>>, o: Seq<Seq<char>>, a: Seq<char>, b: Seq<char>)
    requires
        has_pair(o, a, b),
    ensures
        has_pair(p + o, a, b),
{
    let i = choose|i: int| 0 <= i && i + 1 < o.len() && #[trigger] o[i] == a && o[i + 1] == b;
    let k = p.len() + i;
    assert((p + o)[k] == o[i]);
    assert((p + o)[k + 1] == o[i + 1]);
}

/// Output arguments with audio map the `[aout]` track and encode it as AAC.
proof fn lemma_output_maps_audio(cfg: &Config, enc: VideoEncoder, out_path: Seq<char>)
    ensures
        has_pair(output_args_spec(cfg, enc, true, out_path), "-map"@, "[aout]"@),
        has_pair(output_args_spec(cfg, enc, true, out_path), "-c:a"@, "aac"@),
{
    let o = output_args_spec(cfg, enc, true, out_path);
    let m = seq!["-map"@, "0:v"@, "-map"@, "[aout]"@];
    let v: Seq<Seq<char>> = match video_filter_spec(cfg, enc) {
        Some(vf) => seq!["-vf"@, vf],
        None => seq![],
    };
    let e = encode_args_spec(enc) + quality_args_spec(enc, cfg.quality);
    let au = seq!["-c:a"@, "aac"@, "-b:a"@, "160k"@];
    let t = seq![
        "-g"@,
        dec(gop_spec(cfg.spec_effective_fps()) as nat),
        "-bf"@,
        "0"@,
        "-movflags"@,
        "+frag_keyframe+empty_moov"@,
        "-f"@,
        "mp4"@,
        out_path,
    ];
    assert(o =~= m + v + e + au + t);
    assert(o[2] == "-map"@ && o[3] == "[aout]"@);
    let j: int = 4 + v.len() as int + e.len() as int;
    assert(o[j] == "-c:a"@ && o[j + 1] == "aac"@);
}

/// A Windows recording with any audio input maps the mixed `[aout]` track
/// into the file and encodes it as AAC.
pub proof fn law_windows_audio_is_mapped(
    cfg: &Config,
    enc: VideoEncoder,
    width: u32,
    height: u32,
    sys: Option<(u16, StreamInfo)>,
    mic: Option<(u16, StreamInfo)>,
    out_path: Seq<char>,
)
    requires
        sys is Some || mic is Some,
    ensures
        has_pair(windows_args_spec(cfg, enc, width, height, sys, mic, out_path), "-map"@, "[aout]"@),
        has_pair(windows_args_spec(cfg, enc, width, height, sys, mic, out_path), "-c:a"@, "aac"@),
{
    let p = rawvideo_input_spec(width, height, cfg.spec_effective_fps()) + (match sys {
        Some((port, info)) => socket_input_spec(port, info),
        None => seq![],
    }) + (match mic {
        Some((port, info)) => socket_input_spec(port, info),
        None => seq![],
    }) + audio_filter_spec(1, sys is Some, mic is Some);
    let o = output_args_spec(cfg, enc, true, out_path);
    assert(windows_args_spec(cfg, enc, width, height, sys, mic, out_path) =~= p + o);
    lemma_output_maps_audio(cfg, enc, out_path);
    lemma_has_pair_after(p, o, "-map"@, "[aout]"@);
    lemma_has_pair_after(p, o, "-c:a"@, "aac"@);
}

/// An X11 or Wayland recording to which any PulseAudio input was added
/// maps the `[aout]` track into the file and encodes it as AAC.
pub proof fn law_linux_audio_is_mapped(
    cfg: &Config,
    enc: VideoEncoder,
    display: Seq<char>,
    monitors: Seq<MonGeom>,
    width: u32,
    height: u32,
    pulse_ok: bool,
    sink: Option<Seq<char>>,
    out_path: Seq<char>,
)
    requires
        linux_audio_spec(cfg.system_audio, cfg.microphone, pulse_ok, sink).0.len() > 0,
    ensures
        has_pair(x11_args_spec(cfg, enc, display, monitors, pulse_ok, sink, out_path), "-map"@, "[aout]"@),
        has_pair(x11_args_spec(cfg, enc, display, monitors, pulse_ok, sink, out_path), "-c:a"@, "aac"@),
        has_pair(wayland_args_spec(cfg, enc, width, height, pulse_ok, sink, out_path), "-map"@, "[aout]"@),
        has_pair(wayland_args_spec(cfg, enc, width, height, pulse_ok, sink, out_path), "-c:a"@, "aac"@),
{
    let (a, sys_ok, mic_ok) = linux_audio_spec(cfg.system_audio, cfg.microphone, pulse_ok, sink);
    assert(sys_ok || mic_ok);
    let o = output_args_spec(cfg, enc, true, out_path);
    let px = x11_input_spec(cfg.spec_effective_fps(), display, monitor_at(monitors, cfg.monitor_index)) + a
        + audio_filter_spec(1, sys_ok, mic_ok);
    let pw = rawvideo_input_spec(width, height, cfg.spec_effective_fps()) + a + audio_filter_spec(
        1,
        sys_ok,
        mic_ok,
    );
    assert(x11_args_spec(cfg, enc, display, monitors, pulse_ok, sink, out_path) =~= px + o);
    assert(wayland_args_spec(cfg, enc, width, height, pulse_ok, sink, out_path) =~= pw + o);
    lemma_output_maps_audio(cfg, enc, out_path);
    lemma_has_pair_after(px, o, "-map"@, "[aout]"@);
    lemma_has_pair_after(px, o, "-c:a"@, "aac"@);
    lemma_has_pair_after(pw, o, "-map"@, "[aout]"@);
    lemma_has_pair_after(pw, o, "-c:a"@, "aac"@);
}

/// The microphone is recorded only when it is switched on: with it off no
/// default-source input is added and no microphone is reported; with it on
/// and PulseAudio readable, the default source is the last input added.
/// System sound comes first, from the default sink's monitor, and only
/// when it is switched on and there is a default sink; without PulseAudio
/// nothing is added.
pub proof fn law_linux_microphone_only_when_on(
    system_audio: bool,
    microphone: bool,
    pulse_ok: bool,
    default_sink: Option<Seq<char>>,
)
    ensures
        !microphone ==> {
            let r = linux_audio_spec(system_audio, microphone, pulse_ok, default_sink);
            &&& !r.2
            &&& !has_pair(r.0, "-i"@, "default"@)
            &&& r.0.len() <= 4
        },
        !pulse_ok ==> linux_audio_spec(system_audio, microphone, pulse_ok, default_sink) == (
            Seq::<Seq<char>>::empty(),
            false,
            false,
        ),
        !system_audio ==> !linux_audio_spec(system_audio, microphone, pulse_ok, default_sink).1,
        system_audio && pulse_ok && default_sink is Some ==> {
            let r = linux_audio_spec(system_audio, microphone, pulse_ok, default_sink);
            &&& r.1
            &&& r.0.len() >= 4
            &&& r.0.subrange(0, 4) == seq!["-f"@, "pulse"@, "-i"@, default_sink->0 + ".monitor"@]
        },
        microphone && pulse_ok ==> {
            let r = linux_audio_spec(system_audio, microphone, pulse_ok, default_sink);
            &&& r.2
            &&& r.0.len() >= 4
            &&& r.0.subrange(r.0.len() - 4, r.0.len() as int) == seq!["-f"@, "pulse"@, "-i"@, "default"@]
        },
{
    reveal_strlit("default");
    reveal_strlit(".monitor");
    reveal_strlit("-f");
    reveal_strlit("pulse");
    reveal_strlit("-i");
    let r = linux_audio_spec(system_audio, microphone, pulse_ok, default_sink);
    if !microphone {
        if r.0.len() > 0 {
            let k = default_sink->0;
            assert(r.0 =~= seq!["-f"@, "pulse"@, "-i"@, k + ".monitor"@]);
            assert((k + ".monitor"@).len() != "default"@.len());
            assert forall|i: int| 0 <= i && i + 1 < r.0.len() && #[trigger] r.0[i] == "-i"@ implies r.0[i + 1]
                != "default"@ by {
                assert(r.0[0] != "-i"@) by {
                    assert("-f"@[1] != "-i"@[1]);
                }
                assert(r.0[1] != "-i"@) by {
                    assert("pulse"@.len() != "-i"@.len());
                }
            }
        }
    } else if pulse_ok {
        let tail = seq!["-f"@, "pulse"@, "-i"@, "default"@];
        assert(r.0.subrange(r.0.len() - 4, r.0.len() as int) =~= tail);
    }
    if system_audio && pulse_ok && default_sink is Some {
        assert(r.0.subrange(0, 4) =~= seq!["-f"@, "pulse"@, "-i"@, default_sink->0 + ".monitor"@]);
    }
    if !pulse_ok {
        assert(r.0 =~= Seq::<Seq<char>>::empty());
    }
}

} // verus!
