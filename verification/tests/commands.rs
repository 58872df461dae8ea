use litecap::audio::StreamInfo;
use litecap::config::{default_output_dir, Config};
use litecap::ffmpeg::{probe_command, EncoderProbe, ProbeStep, VideoEncoder};
use litecap::paths::{
    bundled_path, config_path, data_dir, download_temp_path, download_url, ffmpeg_bin,
    is_ffmpeg_entry, join_path, locate, log_path, Platform,
};
use litecap::recorder::{
    append_audio_filter, audio_fallback, build_ffmpeg_args_windows, build_wayland_args, build_x11_args,
    linux_audio_inputs, output_path, pulse_probe_args, timer_label, timestamp, video_filter, Notice,
};
use litecap::x11::MonGeom;

fn cfg() -> Config {
    Config::default_with_output_dir("/home/u/Videos".to_string())
}

fn strs(v: &[&str]) -> Vec<String> {
    v.iter().map(|s| s.to_string()).collect()
}

#[test]
fn config_defaults_and_fps() {
    let c = cfg();
    assert_eq!(c.fps, 30);
    assert_eq!(c.output_dir, "/home/u/Videos");
    assert_eq!(c.monitor_index, 0);
    assert!(c.system_audio && c.microphone);
    assert_eq!(c.hotkey, "ctrl+alt+r");
    assert_eq!(c.quality, 23);
    assert_eq!(c.max_height, None);
    assert!(!c.preset_1080p60);
    assert_eq!(c.effective_fps(), 30);
    let mut p = cfg();
    p.fps = 24;
    p.preset_1080p60 = true;
    assert_eq!(p.effective_fps(), 60);
}

#[test]
fn output_dir_fallbacks() {
    assert_eq!(default_output_dir(Some((Some("/v".into()), "/h".into()))), "/v");
    assert_eq!(default_output_dir(Some((None, "/h".into()))), "/h");
    assert_eq!(default_output_dir(None), ".");
}

#[test]
fn path_joining() {
    assert_eq!(join_path(Platform::Linux, "/a/b", "c"), "/a/b/c");
    assert_eq!(join_path(Platform::Linux, "/a/b/", "c"), "/a/b/c");
    assert_eq!(join_path(Platform::Linux, "", "c"), "c");
    assert_eq!(join_path(Platform::Linux, "a\\", "c"), "a\\/c");
    assert_eq!(join_path(Platform::Windows, "C:\\x", "c"), "C:\\x\\c");
    assert_eq!(join_path(Platform::Windows, "C:\\x/", "c"), "C:\\x/c");
    assert_eq!(join_path(Platform::Windows, "C:", "c"), "C:c");
    assert_eq!(join_path(Platform::Windows, "1:", "c"), "1:\\c");
}

#[test]
fn ffmpeg_locations() {
    assert_eq!(data_dir(None), ".");
    assert_eq!(data_dir(Some("/d".into())), "/d");
    assert_eq!(ffmpeg_bin(Platform::Windows), "ffmpeg.exe");
    assert_eq!(ffmpeg_bin(Platform::Linux), "ffmpeg");
    assert_eq!(bundled_path(Platform::Linux, "/d"), "/d/ffmpeg/ffmpeg");
    assert_eq!(bundled_path(Platform::Windows, "C:\\d"), "C:\\d\\ffmpeg\\ffmpeg.exe");
    assert_eq!(download_temp_path(Platform::Linux, "/d"), "/d/ffmpeg/download.tmp");
    assert_eq!(log_path(Platform::Linux, "/d"), "/d/litecap.log");
    assert_eq!(config_path(Platform::Linux, Some("/c")), Some("/c/config.toml".to_string()));
    assert_eq!(config_path(Platform::Linux, None), None);
    assert!(download_url(Platform::Linux).ends_with("linux64-gpl.tar.xz"));
    assert!(download_url(Platform::Windows).ends_with("win64-gpl.zip"));
    assert!(is_ffmpeg_entry(Platform::Linux, "ffmpeg-master-latest-linux64-gpl/bin/ffmpeg"));
    assert!(!is_ffmpeg_entry(Platform::Linux, "ffmpeg-master-latest-linux64-gpl/bin/ffprobe"));
    assert!(!is_ffmpeg_entry(Platform::Linux, "ffmpeg"));
    assert!(is_ffmpeg_entry(Platform::Windows, "x/bin/ffmpeg.exe"));
    assert!(!is_ffmpeg_entry(Platform::Windows, "x/bin/ffmpeg"));
}

#[test]
fn locate_order() {
    assert_eq!(locate(Platform::Linux, "/d/ffmpeg/ffmpeg".into(), true, true), Some("/d/ffmpeg/ffmpeg".into()));
    assert_eq!(locate(Platform::Linux, "/d/ffmpeg/ffmpeg".into(), false, true), Some("ffmpeg".into()));
    assert_eq!(locate(Platform::Windows, "b".into(), false, true), Some("ffmpeg.exe".into()));
    assert_eq!(locate(Platform::Linux, "b".into(), false, false), None);
}

#[test]
fn encoder_arguments() {
    assert_eq!(VideoEncoder::Nvenc.probe_args(), strs(&["-c:v", "h264_nvenc", "-preset", "p4"]));
    assert_eq!(
        VideoEncoder::Vaapi.probe_args(),
        strs(&["-vaapi_device", "/dev/dri/renderD128", "-vf", "format=nv12,hwupload", "-c:v", "h264_vaapi"])
    );
    assert_eq!(
        VideoEncoder::Vaapi.encode_args(),
        strs(&["-vaapi_device", "/dev/dri/renderD128", "-c:v", "h264_vaapi"])
    );
    assert_eq!(VideoEncoder::X264.encode_args(), VideoEncoder::X264.probe_args());
    assert_eq!(VideoEncoder::Amf.quality_args(23), strs(&["-qp_i", "23", "-qp_p", "23"]));
    assert_eq!(VideoEncoder::X264.quality_args(0), strs(&["-crf", "0"]));
    assert_eq!(VideoEncoder::Qsv.quality_args(255), strs(&["-global_quality", "255"]));
    assert_eq!(VideoEncoder::Nvenc.quality_args(19), strs(&["-cq", "19"]));
    assert_eq!(VideoEncoder::Vaapi.quality_args(30), strs(&["-qp", "30"]));
    assert_eq!(
        VideoEncoder::candidates(Platform::Windows),
        vec![VideoEncoder::Nvenc, VideoEncoder::Qsv, VideoEncoder::Amf, VideoEncoder::X264]
    );
    assert_eq!(VideoEncoder::candidates(Platform::Linux), vec![VideoEncoder::Vaapi, VideoEncoder::X264]);
    assert_eq!(
        probe_command(VideoEncoder::Qsv),
        strs(&[
            "-hide_banner", "-v", "error", "-f", "lavfi", "-i", "color=black:s=256x256:r=30:d=0.2",
            "-frames:v", "3", "-c:v", "h264_qsv", "-f", "null", "-",
        ])
    );
}

fn run_probe(p: Platform, outcomes: &[bool]) -> (VideoEncoder, Vec<VideoEncoder>) {
    let mut probe = EncoderProbe::new(p);
    let mut tried = Vec::new();
    let mut i = 0;
    loop {
        match probe.step() {
            ProbeStep::Done(e) => return (e, tried),
            ProbeStep::Try(e, args) => {
                assert_eq!(args, probe_command(e));
                tried.push(e);
                probe.report(outcomes[i]);
                i += 1;
            }
        }
    }
}

#[test]
fn probe_first_success_wins() {
    let (e, tried) = run_probe(Platform::Windows, &[false, true, true, true]);
    assert_eq!(e, VideoEncoder::Qsv);
    assert_eq!(tried, vec![VideoEncoder::Nvenc, VideoEncoder::Qsv]);
    let (e, _) = run_probe(Platform::Windows, &[true]);
    assert_eq!(e, VideoEncoder::Nvenc);
    let (e, tried) = run_probe(Platform::Linux, &[false, false]);
    assert_eq!(e, VideoEncoder::X264);
    assert_eq!(tried.len(), 2);
    let (e, tried) = run_probe(Platform::Windows, &[false, false, false, false]);
    assert_eq!(e, VideoEncoder::X264);
    assert_eq!(tried.len(), 4);
}

#[test]
fn video_filters() {
    let mut c = cfg();
    assert_eq!(video_filter(&c, VideoEncoder::X264), None);
    assert_eq!(video_filter(&c, VideoEncoder::Vaapi).as_deref(), Some("format=nv12,hwupload"));
    c.max_height = Some(720);
    assert_eq!(video_filter(&c, VideoEncoder::Nvenc).as_deref(), Some("scale=-2:720"));
    assert_eq!(video_filter(&c, VideoEncoder::Vaapi).as_deref(), Some("scale=-2:720,format=nv12,hwupload"));
    c.preset_1080p60 = true;
    let s = "scale=1920:1080:force_original_aspect_ratio=decrease,pad=1920:1080:(ow-iw)/2:(oh-ih)/2";
    assert_eq!(video_filter(&c, VideoEncoder::X264).as_deref(), Some(s));
    c.max_height = None;
    c.fps = 15;
    assert_eq!(video_filter(&c, VideoEncoder::X264).as_deref(), Some(s));
    assert_eq!(c.effective_fps(), 60);
}

#[test]
fn output_names() {
    assert_eq!(timestamp(2024, 3, 5, 7, 8, 9), "20240305-070809");
    assert_eq!(timestamp(999, 12, 31, 23, 59, 59), "09991231-235959");
    assert_eq!(timestamp(-44, 1, 1, 0, 0, 0), "-00440101-000000");
    assert_eq!(
        output_path(Platform::Linux, "/v", Some("20240305-070809")),
        "/v/litecap-20240305-070809.mp4"
    );
    assert_eq!(output_path(Platform::Windows, "C:\\V", None), "C:\\V\\litecap-recording.mp4");
}

#[test]
fn audio_filters() {
    let mut a = Vec::new();
    assert!(append_audio_filter(&mut a, 1, true, true));
    assert_eq!(
        a,
        strs(&[
            "-filter_complex",
            "[1:a]aresample=async=1[a1];[2:a]aresample=async=1[a2];[a1][a2]amix=inputs=2:duration=longest[aout]",
        ])
    );
    let mut a = Vec::new();
    assert!(append_audio_filter(&mut a, 1, false, true));
    assert_eq!(a, strs(&["-filter_complex", "[1:a]aresample=async=1[aout]"]));
    let mut a = Vec::new();
    assert!(append_audio_filter(&mut a, 3, true, false));
    assert_eq!(a, strs(&["-filter_complex", "[3:a]aresample=async=1[aout]"]));
    let mut a = strs(&["x"]);
    assert!(!append_audio_filter(&mut a, 1, false, false));
    assert_eq!(a, strs(&["x"]));
}

#[test]
fn windows_command_line_with_both_sources() {
    let c = cfg();
    let info = StreamInfo { sample_rate: 48000, channels: 2 };
    let mic = StreamInfo { sample_rate: 44100, channels: 1 };
    let args = build_ffmpeg_args_windows(
        &c,
        VideoEncoder::Nvenc,
        2560,
        1440,
        Some((50000, info)),
        Some((50001, mic)),
        "C:\\V\\litecap-x.mp4",
    );
    assert_eq!(
        args,
        strs(&[
            "-hide_banner", "-v", "warning", "-f", "rawvideo", "-pixel_format", "bgra",
            "-video_size", "2560x1440", "-framerate", "30", "-i", "pipe:0",
            "-f", "f32le", "-ar", "48000", "-ac", "2", "-i", "tcp://127.0.0.1:50000",
            "-f", "f32le", "-ar", "44100", "-ac", "1", "-i", "tcp://127.0.0.1:50001",
            "-filter_complex",
            "[1:a]aresample=async=1[a1];[2:a]aresample=async=1[a2];[a1][a2]amix=inputs=2:duration=longest[aout]",
            "-map", "0:v", "-map", "[aout]",
            "-c:v", "h264_nvenc", "-preset", "p4", "-cq", "23",
            "-c:a", "aac", "-b:a", "160k",
            "-g", "60", "-bf", "0", "-movflags", "+frag_keyframe+empty_moov", "-f", "mp4",
            "C:\\V\\litecap-x.mp4",
        ])
    );
}

#[test]
fn windows_command_line_video_only_and_mic_only() {
    let mut c = cfg();
    c.preset_1080p60 = true;
    let args = build_ffmpeg_args_windows(&c, VideoEncoder::X264, 800, 600, None, None, "o.mp4");
    assert_eq!(
        args,
        strs(&[
            "-hide_banner", "-v", "warning", "-f", "rawvideo", "-pixel_format", "bgra",
            "-video_size", "800x600", "-framerate", "60", "-i", "pipe:0",
            "-map", "0:v",
            "-vf", "scale=1920:1080:force_original_aspect_ratio=decrease,pad=1920:1080:(ow-iw)/2:(oh-ih)/2",
            "-c:v", "libx264", "-preset", "veryfast", "-crf", "23",
            "-g", "120", "-bf", "0", "-movflags", "+frag_keyframe+empty_moov", "-f", "mp4", "o.mp4",
        ])
    );
    let c = cfg();
    let mic = StreamInfo { sample_rate: 16000, channels: 1 };
    let args = build_ffmpeg_args_windows(&c, VideoEncoder::Qsv, 10, 10, None, Some((7, mic)), "o.mp4");
    let i = args.iter().position(|a| a == "-filter_complex").unwrap();
    assert_eq!(args[i + 1], "[1:a]aresample=async=1[aout]");
    assert!(args.contains(&"tcp://127.0.0.1:7".to_string()));
}

#[test]
fn keyframe_interval_wraps_like_u32() {
    let mut c = cfg();
    c.fps = u32::MAX;
    let args = build_ffmpeg_args_windows(&c, VideoEncoder::X264, 1, 1, None, None, "o");
    let g = args.iter().position(|a| a == "-g").unwrap();
    assert_eq!(args[g + 1], u32::MAX.wrapping_mul(2).to_string());
}

#[test]
fn linux_audio_plan() {
    let c = cfg();
    let mut a = Vec::new();
    let (s, m, n) = linux_audio_inputs(&c, true, Some("alsa_out".into()), &mut a);
    assert!(s && m);
    assert!(n.is_empty());
    assert_eq!(a, strs(&["-f", "pulse", "-i", "alsa_out.monitor", "-f", "pulse", "-i", "default"]));

    let mut a = Vec::new();
    let (s, m, n) = linux_audio_inputs(&c, true, None, &mut a);
    assert!(!s && m);
    assert_eq!(n, vec![Notice::SystemAudioUnavailable]);
    assert_eq!(a, strs(&["-f", "pulse", "-i", "default"]));

    let mut a = Vec::new();
    let (s, m, n) = linux_audio_inputs(&c, false, Some("x".into()), &mut a);
    assert!(!s && !m);
    assert_eq!(n, vec![Notice::AudioUnavailable]);
    assert!(a.is_empty());

    let mut off = cfg();
    off.system_audio = false;
    off.microphone = false;
    let mut a = Vec::new();
    let (s, m, n) = linux_audio_inputs(&off, false, None, &mut a);
    assert!(!s && !m && n.is_empty() && a.is_empty());
    assert_eq!(
        Notice::AudioUnavailable.text(),
        "Audio unavailable in this FFmpeg build (needs a pulse-enabled build)"
    );
    assert_eq!(Notice::MicrophoneUnavailable.text(), "Microphone unavailable, recording without it");
    assert_eq!(
        pulse_probe_args(),
        strs(&["-v", "error", "-f", "pulse", "-i", "default", "-t", "0.1", "-f", "null", "-"])
    );
}

#[test]
fn x11_command_lines() {
    let mut c = cfg();
    c.system_audio = false;
    c.microphone = false;
    c.monitor_index = 1;
    let ms = vec![
        MonGeom { name: "a".into(), w: 1920, h: 1080, x: 0, y: 0 },
        MonGeom { name: "b".into(), w: 1280, h: 1024, x: 1920, y: -56 },
    ];
    let (args, notices) = build_x11_args(&c, VideoEncoder::Vaapi, ":0", &ms, true, None, "/v/o.mp4");
    assert!(notices.is_empty());
    assert_eq!(
        args,
        strs(&[
            "-hide_banner", "-v", "warning", "-f", "x11grab", "-framerate", "30",
            "-video_size", "1280x1024", "-i", ":0+1920,-56",
            "-map", "0:v", "-vf", "format=nv12,hwupload",
            "-vaapi_device", "/dev/dri/renderD128", "-c:v", "h264_vaapi",
            "-qp", "23",
            "-g", "60", "-bf", "0", "-movflags", "+frag_keyframe+empty_moov", "-f", "mp4", "/v/o.mp4",
        ])
    );
    c.monitor_index = 5;
    let (args, _) = build_x11_args(&c, VideoEncoder::X264, ":1", &ms, true, None, "o");
    assert_eq!(&args[..9], &strs(&["-hide_banner", "-v", "warning", "-f", "x11grab", "-framerate", "30", "-i", ":1"])[..]);
}

#[test]
fn vaapi_scaling_keeps_one_video_filter() {
    let mut c = cfg();
    c.system_audio = false;
    c.microphone = false;
    c.max_height = Some(720);
    let ms = vec![MonGeom { name: "a".into(), w: 1920, h: 1080, x: 0, y: 0 }];
    let (args, _) = build_x11_args(&c, VideoEncoder::Vaapi, ":0", &ms, false, None, "/v/o.mp4");
    let vf: Vec<usize> = args.iter().enumerate().filter(|(_, a)| a.as_str() == "-vf").map(|(i, _)| i).collect();
    assert_eq!(vf.len(), 1);
    assert_eq!(args[vf[0] + 1], "scale=-2:720,format=nv12,hwupload");
    c.preset_1080p60 = true;
    let (args, _) = build_x11_args(&c, VideoEncoder::Vaapi, ":0", &ms, false, None, "/v/o.mp4");
    assert_eq!(args.iter().filter(|a| a.as_str() == "-vf").count(), 1);
}

#[test]
fn wayland_command_line_with_mic() {
    let mut c = cfg();
    c.system_audio = false;
    let (args, notices) = build_wayland_args(&c, VideoEncoder::X264, 1920, 1080, true, None, "o.mp4");
    assert!(notices.is_empty());
    assert_eq!(
        args,
        strs(&[
            "-hide_banner", "-v", "warning", "-f", "rawvideo", "-pixel_format", "bgra",
            "-video_size", "1920x1080", "-framerate", "30", "-i", "pipe:0",
            "-f", "pulse", "-i", "default",
            "-filter_complex", "[1:a]aresample=async=1[aout]",
            "-map", "0:v", "-map", "[aout]",
            "-c:v", "libx264", "-preset", "veryfast", "-crf", "23",
            "-c:a", "aac", "-b:a", "160k",
            "-g", "60", "-bf", "0", "-movflags", "+frag_keyframe+empty_moov", "-f", "mp4", "o.mp4",
        ])
    );
}

#[test]
fn timer_labels() {
    assert_eq!(timer_label(0), "Stop Recording (00:00)");
    assert_eq!(timer_label(125), "Stop Recording (02:05)");
    assert_eq!(timer_label(6000), "Stop Recording (100:00)");
}

#[test]
fn stream_info_probe() {
    assert_eq!(
        StreamInfo::from_probe(true, 48000, 2),
        Some(StreamInfo { sample_rate: 48000, channels: 2 })
    );
    assert_eq!(StreamInfo::from_probe(false, 48000, 2), None);
}

#[test]
fn windows_audio_fallback() {
    assert_eq!(audio_fallback(true, true, true, true), (true, true, vec![]));
    assert_eq!(
        audio_fallback(true, false, true, false),
        (false, false, vec![Notice::SystemAudioUnavailable, Notice::MicrophoneUnavailable])
    );
    assert_eq!(audio_fallback(false, false, true, false), (false, false, vec![Notice::MicrophoneUnavailable]));
    assert_eq!(audio_fallback(false, true, false, true), (false, false, vec![]));
}
