use litecap::capture::{copy_rows, frame_period_nanos, monitor_display_name, FrameSlot, Pacer, Tick};
use litecap::config::Config;
use litecap::icon::{build, idle_rgba, recording_rgba, SIZE};
use litecap::tray::{menu_checks, AppCore, Effect, MenuChoice, Phase, TrayIcon, preparing_label};
use litecap::wayland::{buffer_usable, classify_start_error, WaylandCaptureError};

#[test]
fn copy_rows_strips_stride() {
    // 2x2 pixels, stride 12 bytes (4 bytes of padding per row).
    let src: Vec<u8> = (0u8..24).collect();
    let mut dst = vec![9u8; 3];
    copy_rows(&src, 12, 2, 2, false, &mut dst);
    assert_eq!(dst, vec![0, 1, 2, 3, 4, 5, 6, 7, 12, 13, 14, 15, 16, 17, 18, 19]);
    copy_rows(&src, 12, 2, 2, true, &mut dst);
    assert_eq!(dst, vec![0, 1, 2, 255, 4, 5, 6, 255, 12, 13, 14, 255, 16, 17, 18, 255]);
    copy_rows(&src, 12, 0, 2, true, &mut dst);
    assert!(dst.is_empty());
    copy_rows(&[], 0, 5, 0, false, &mut dst);
    assert!(dst.is_empty());
}

#[test]
fn frame_slot_hand_off() {
    let mut slot = FrameSlot::new();
    assert!(slot.take().is_none());
    slot.publish(2, 1, &[1, 2, 3, 4, 5, 6, 7, 8]);
    slot.publish(1, 1, &[9, 9, 9, 9]);
    let f = slot.take().unwrap();
    assert_eq!((f.width, f.height), (1, 1));
    assert_eq!(f.data, vec![9, 9, 9, 9]);
    assert!(slot.take().is_none());
    slot.recycle(f.data);
    slot.publish(1, 1, &[1, 1, 1, 1]);
    assert_eq!(slot.take().unwrap().data, vec![1, 1, 1, 1]);
}

#[test]
fn frame_slot_counts_lent_frames() {
    let mut slot = FrameSlot::new();
    assert_eq!(slot.frames_lent(), 0);
    slot.publish(1, 1, &[1, 1, 1, 1]);
    let held = slot.take().unwrap();
    assert_eq!(slot.frames_lent(), 1);
    slot.publish(1, 1, &[2, 2, 2, 2]);
    slot.publish(1, 1, &[3, 3, 3, 3]);
    assert_eq!(slot.frames_lent(), 1);
    let next = slot.take().unwrap();
    assert_eq!(next.data, vec![3, 3, 3, 3]);
    assert_eq!(slot.frames_lent(), 2);
    slot.recycle(held.data);
    assert_eq!(slot.frames_lent(), 1);
    slot.publish(2, 1, &[4, 4, 4, 4, 5, 5, 5, 5]);
    let last = slot.take().unwrap();
    assert_eq!((last.width, last.height, last.data), (2, 1, vec![4, 4, 4, 4, 5, 5, 5, 5]));
}

#[test]
fn pacer_repeats_held_frame() {
    let mut slot = FrameSlot::new();
    let mut pacer = Pacer::new();
    assert_eq!(pacer.tick(&mut slot), Tick::Skip);
    assert_eq!(pacer.frame_bytes(), &[] as &[u8]);
    slot.publish(1, 1, &[1, 2, 3, 4]);
    assert_eq!(pacer.tick(&mut slot), Tick::Write { fresh: true });
    assert_eq!(pacer.frame_bytes(), &[1, 2, 3, 4]);
    pacer.record_sent(true);
    assert_eq!(pacer.tick(&mut slot), Tick::Write { fresh: false });
    assert_eq!(pacer.frame_bytes(), &[1, 2, 3, 4]);
    pacer.record_sent(false);
    slot.publish(1, 1, &[5, 6, 7, 8]);
    assert_eq!(pacer.tick(&mut slot), Tick::Write { fresh: true });
    assert_eq!(pacer.frame_bytes(), &[5, 6, 7, 8]);
    pacer.record_sent(true);
    assert_eq!(pacer.stats(), (3, 1));
}

#[test]
fn pacer_period() {
    assert_eq!(frame_period_nanos(30), 33_333_333);
    assert_eq!(frame_period_nanos(60), 16_666_666);
    assert_eq!(frame_period_nanos(1), 1_000_000_000);
}

#[test]
fn monitor_names_fall_back() {
    assert_eq!(monitor_display_name(0, None), "Monitor 1");
    assert_eq!(monitor_display_name(9, None), "Monitor 10");
    assert_eq!(monitor_display_name(3, Some("DELL".into())), "DELL");
}

fn px(buf: &[u8], x: usize, y: usize) -> [u8; 4] {
    let i = (y * 32 + x) * 4;
    [buf[i], buf[i + 1], buf[i + 2], buf[i + 3]]
}

#[test]
fn icons() {
    let idle = idle_rgba();
    assert_eq!(idle.len(), (SIZE * SIZE * 4) as usize);
    assert_eq!(px(&idle, 0, 0), [0, 0, 0, 0]);
    assert_eq!(px(&idle, 16, 16), [58, 58, 62, 255]);
    assert_eq!(px(&idle, 16, 3), [110, 110, 116, 255]);
    assert_eq!(px(&idle, 16, 1), [0, 0, 0, 0]);
    let rec = recording_rgba();
    assert_eq!(px(&rec, 16, 16), [220, 40, 40, 255]);
    assert_eq!(px(&rec, 16, 9), [220, 40, 40, 255]);
    assert_eq!(px(&rec, 16, 8), [58, 58, 62, 255]);
    let mut differing = 0;
    for i in 0..idle.len() {
        if idle[i] != rec[i] {
            differing += 1;
        }
    }
    assert!(differing > 0);
    assert_eq!(build(None), idle);
}

#[test]
fn portal_errors() {
    assert!(matches!(
        classify_start_error(true, "Portal request was cancelled"),
        WaylandCaptureError::Cancelled
    ));
    match classify_start_error(false, "Portal request was cancelled") {
        WaylandCaptureError::Other(m) => assert_eq!(m, "starting screencast: Portal request was cancelled"),
        _ => panic!("expected Other"),
    }
    match classify_start_error(true, "boom") {
        WaylandCaptureError::Other(m) => assert_eq!(m, "starting screencast: boom"),
        _ => panic!("expected Other"),
    }
    assert_eq!(WaylandCaptureError::Cancelled.message(), "user cancelled the screen selection dialog");
    assert_eq!(WaylandCaptureError::Cancelled.start_failure(), "capture cancelled by user");
    assert_eq!(WaylandCaptureError::Other("x".into()).start_failure(), "x");
    assert!(buffer_usable(true, 1));
    assert!(!buffer_usable(true, 0));
    assert!(!buffer_usable(false, 5));
}

fn new_app() -> AppCore {
    AppCore::new(Config::default_with_output_dir(".".into()), true)
}

fn labels(effects: &[Effect]) -> Vec<String> {
    effects
        .iter()
        .filter_map(|e| match e {
            Effect::SetLabel(s) => Some(s.clone()),
            _ => None,
        })
        .collect()
}

#[test]
fn tray_startup_and_toggle() {
    let mut app = new_app();
    assert_eq!(preparing_label(), "Preparing FFmpeg\u{2026}");
    assert!(app.toggle().is_empty());
    assert!(app.hotkey_pressed().is_empty());
    assert_eq!(app.phase, Phase::PreparingFfmpeg);
    let e = app.ffmpeg_ready(true);
    assert_eq!(labels(&e), vec!["Start Recording".to_string()]);
    assert_eq!(app.phase, Phase::Idle);
    let e = app.menu(MenuChoice::StartStop);
    assert!(matches!(e[..], [Effect::StartRecording]));
    let e = app.start_finished(Ok(()));
    assert_eq!(app.phase, Phase::Recording);
    assert!(matches!(&e[0], Effect::Notify(m) if m == "Recording started"));
    assert_eq!(labels(&e), vec!["Stop Recording (00:00)".to_string()]);
    assert!(matches!(e[2], Effect::SetIcon(TrayIcon::Recording)));
    assert_eq!(labels(&app.tick(61)), vec!["Stop Recording (01:01)".to_string()]);
    let e = app.hotkey_pressed();
    assert!(matches!(e[..], [Effect::StopRecording]));
    let e = app.stop_finished(true);
    assert!(matches!(e[0], Effect::NotifySaved));
    assert!(matches!(e[2], Effect::SetIcon(TrayIcon::Idle)));
    assert_eq!(app.phase, Phase::Idle);
    assert!(app.tick(5).is_empty());
}

#[test]
fn tray_failures() {
    let mut app = new_app();
    let e = app.ffmpeg_ready(false);
    assert_eq!(app.phase, Phase::PreparingFfmpeg);
    assert_eq!(labels(&e), vec!["FFmpeg unavailable".to_string()]);
    let mut app = new_app();
    app.ffmpeg_ready(true);
    let e = app.start_finished(Err("no monitor".into()));
    assert_eq!(app.phase, Phase::Idle);
    assert!(matches!(&e[0], Effect::Notify(m) if m == "Failed to start recording: no monitor"));
    app.start_finished(Ok(()));
    let e = app.stop_finished(false);
    assert!(matches!(&e[0], Effect::Notify(m) if m == "Recording stopped with errors, see litecap.log"));
    // A second readiness report changes nothing.
    assert!(app.ffmpeg_ready(false).is_empty());
    assert_eq!(app.phase, Phase::Idle);
}

#[test]
fn tray_settings_and_quit() {
    let mut app = new_app();
    app.ffmpeg_ready(true);
    assert!(matches!(app.menu(MenuChoice::SystemAudio(false))[..], [Effect::SaveConfig]));
    assert!(!app.cfg.system_audio);
    assert!(matches!(app.menu(MenuChoice::Microphone(false))[..], [Effect::SaveConfig]));
    assert!(!app.cfg.microphone);
    assert!(matches!(app.menu(MenuChoice::Preset1080p60(true))[..], [Effect::SaveConfig]));
    assert!(app.cfg.preset_1080p60);
    assert!(matches!(app.menu(MenuChoice::Monitor(2))[..], [Effect::CheckMonitor(2), Effect::SaveConfig]));
    assert_eq!(app.cfg.monitor_index, 2);
    assert!(matches!(app.menu(MenuChoice::OpenFolder)[..], [Effect::OpenFolder]));
    assert!(app.menu(MenuChoice::Unknown).is_empty());
    app.start_finished(Ok(()));
    let e = app.menu(MenuChoice::Quit);
    assert!(matches!(e[..], [Effect::StopRecording, Effect::Quit]));
    assert!(app.quit_requested);
    let mut idle = new_app();
    assert!(matches!(idle.menu(MenuChoice::Quit)[..], [Effect::Quit]));
    let mut no_hotkey = AppCore::new(Config::default_with_output_dir(".".into()), false);
    no_hotkey.ffmpeg_ready(true);
    assert!(no_hotkey.hotkey_pressed().is_empty());
}

#[test]
fn tray_menu_initial_checks() {
    let mut c = Config::default_with_output_dir("/v".to_string());
    c.monitor_index = 1;
    c.microphone = true;
    c.system_audio = false;
    c.preset_1080p60 = true;
    let m = menu_checks(&c, 3);
    assert_eq!(m.monitors, vec![false, true, false]);
    assert!(m.show_monitor_menu);
    assert!(m.microphone && !m.system_audio && m.preset_1080p60);
    let m = menu_checks(&c, 0);
    assert!(m.monitors.is_empty());
    assert!(!m.show_monitor_menu);
}

#[test]
fn pacer_sample_and_hold_run() {
    let mut slot = FrameSlot::new();
    let mut pacer = Pacer::new();
    let offered: Vec<Option<u8>> = vec![None, Some(1), None, None, Some(2), Some(3), None];
    let mut written: Vec<Option<Vec<u8>>> = Vec::new();
    for x in offered {
        if let Some(v) = x {
            slot.publish(1, 1, &[v; 4]);
        }
        match pacer.tick(&mut slot) {
            Tick::Skip => written.push(None),
            Tick::Write { fresh } => {
                pacer.record_sent(fresh);
                written.push(Some(pacer.frame_bytes().to_vec()));
            }
        }
        assert!(slot.frames_lent() <= 1);
    }
    assert_eq!(
        written,
        vec![None, Some(vec![1; 4]), Some(vec![1; 4]), Some(vec![1; 4]), Some(vec![2; 4]), Some(vec![3; 4]), Some(vec![3; 4])]
    );
    assert_eq!(pacer.stats(), (6, 3));
}

#[test]
fn frame_slot_accepts_a_buffer_it_did_not_lend() {
    let mut slot = FrameSlot::new();
    slot.recycle(vec![9u8; 100]);
    assert_eq!(slot.frames_lent(), 0);
    slot.publish(2, 1, &[1, 2, 3, 4, 5, 6, 7, 8]);
    let f = slot.take().unwrap();
    assert_eq!((f.width, f.height, f.data), (2, 1, vec![1, 2, 3, 4, 5, 6, 7, 8]));
}

#[test]
fn frame_slot_latest_frame_wins() {
    let mut slot = FrameSlot::new();
    slot.publish(1, 1, &[1, 1, 1, 1]);
    slot.publish(2, 1, &[2, 2, 2, 2, 3, 3, 3, 3]);
    let f = slot.take().unwrap();
    assert_eq!((f.width, f.height, f.data), (2, 1, vec![2, 2, 2, 2, 3, 3, 3, 3]));
    assert!(slot.take().is_none());
}
