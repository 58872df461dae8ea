use litecap::recorder::parse_default_sink;
use litecap::text::{dec_string, push_dec_i64, push_dec_pad2, push_dec_pad4};
use litecap::x11::{is_wayland_session, monitor_menu_names, parse_monitor_line, parse_monitors, MonGeom};

#[test]
fn decimal_formatting() {
    assert_eq!(dec_string(0), "0");
    assert_eq!(dec_string(7), "7");
    assert_eq!(dec_string(12345), "12345");
    assert_eq!(dec_string(u64::MAX), u64::MAX.to_string());
    let mut s = String::new();
    push_dec_i64(&mut s, -42);
    assert_eq!(s, "-42");
    let mut s = String::new();
    push_dec_i64(&mut s, i64::MIN);
    assert_eq!(s, i64::MIN.to_string());
    let mut s = String::new();
    push_dec_pad2(&mut s, 5);
    push_dec_pad2(&mut s, 123);
    assert_eq!(s, "05123");
    let mut s = String::new();
    push_dec_pad4(&mut s, 7);
    push_dec_pad4(&mut s, 42);
    push_dec_pad4(&mut s, 999);
    push_dec_pad4(&mut s, 2024);
    push_dec_pad4(&mut s, 12345);
    assert_eq!(s, "000700420999202412345");
}

#[test]
fn parses_laptop_panel_line() {
    let m = parse_monitor_line(" 0: +*eDP-1 1920/309x1080/174+0+0  eDP-1").unwrap();
    assert_eq!(m.name, "eDP-1");
    assert_eq!((m.w, m.h, m.x, m.y), (1920, 1080, 0, 0));
}

#[test]
fn parses_offsets_and_signs() {
    let m = parse_monitor_line(" 1: +HDMI-1 2560/597x1440/336+1920+-5  HDMI-1").unwrap();
    assert_eq!(m.name, "HDMI-1");
    assert_eq!((m.w, m.h, m.x, m.y), (2560, 1440, 1920, -5));
    // The y part is everything after the second '+', so a third '+' makes
    // it unparsable.
    assert!(parse_monitor_line(" 1: DP-2 800/1x600/1+1+2+3 DP-2").is_none());
    // Without the physical size.
    let m = parse_monitor_line("0: +*VGA 1024x768+10+20 VGA").unwrap();
    assert_eq!((m.w, m.h, m.x, m.y), (1024, 768, 10, 20));
}

#[test]
fn rejects_malformed_lines() {
    assert!(parse_monitor_line("").is_none());
    assert!(parse_monitor_line(" 0: +*eDP-1 1920/309x1080/174+0+0").is_none());
    assert!(parse_monitor_line(" 0: eDP 1920/309-1080/174+0+0 eDP").is_none());
    assert!(parse_monitor_line(" 0: eDP 1920/309x1080/174+0 eDP").is_none());
    assert!(parse_monitor_line(" 0: eDP abc/309x1080/174+0+0 eDP").is_none());
    assert!(parse_monitor_line(" 0: eDP 99999999999x1080+0+0 eDP").is_none());
    assert!(parse_monitor_line(" 0: eDP 1920x1080+3000000000+0 eDP").is_none());
    assert!(parse_monitor_line("Monitors: 2").is_none());
}

#[test]
fn parses_whole_listing() {
    let out = "Monitors: 2\n 0: +*eDP-1 1920/309x1080/174+0+0  eDP-1\n 1: +HDMI-1 2560/597x1440/336+1920+0  HDMI-1\n";
    let ms = parse_monitors(out);
    assert_eq!(ms.len(), 2);
    assert_eq!(ms[0].name, "eDP-1");
    assert_eq!(ms[1].name, "HDMI-1");
    assert_eq!((ms[1].w, ms[1].h, ms[1].x, ms[1].y), (2560, 1440, 1920, 0));
}

#[test]
fn listing_edge_cases() {
    assert!(parse_monitors("").is_empty());
    // A header alone, or a header that happens to look like a monitor.
    assert!(parse_monitors(" 0: +*eDP-1 1920/309x1080/174+0+0  eDP-1\n").is_empty());
    // CRLF line ends and an unparsable line in between.
    let ms = parse_monitors("Monitors: 2\r\ngarbage\r\n 0: +A 10/1x20/1+1+2 A\r\n");
    assert_eq!(ms.len(), 1);
    assert_eq!(ms[0].name, "A");
    assert_eq!((ms[0].w, ms[0].h, ms[0].x, ms[0].y), (10, 20, 1, 2));
}

#[test]
fn wayland_detection() {
    assert!(is_wayland_session(Some("wayland"), false));
    assert!(is_wayland_session(Some("WayLand"), false));
    assert!(!is_wayland_session(Some("x11"), false));
    assert!(!is_wayland_session(Some("waylandx"), false));
    assert!(is_wayland_session(None, true));
    assert!(is_wayland_session(Some("x11"), true));
    assert!(!is_wayland_session(None, false));
}

#[test]
fn monitor_menu_names_follow_session() {
    let ms = vec![
        MonGeom { name: "eDP-1".to_string(), w: 1, h: 1, x: 0, y: 0 },
        MonGeom { name: "HDMI-1".to_string(), w: 1, h: 1, x: 0, y: 0 },
    ];
    assert!(monitor_menu_names(true, &ms).is_empty());
    assert_eq!(monitor_menu_names(false, &ms), vec!["eDP-1".to_string(), "HDMI-1".to_string()]);
}

#[test]
fn default_sink_trimmed() {
    assert_eq!(
        parse_default_sink("alsa_output.pci-0000_00_1f.3.analog-stereo\n").as_deref(),
        Some("alsa_output.pci-0000_00_1f.3.analog-stereo")
    );
    assert_eq!(parse_default_sink("  sink \t\r\n").as_deref(), Some("sink"));
    assert_eq!(parse_default_sink(""), None);
    assert_eq!(parse_default_sink(" \n\t"), None);
}

#[test]
fn unicode_whitespace_separates_and_trims() {
    assert_eq!(parse_default_sink("\u{3000}sink\u{a0}\n").as_deref(), Some("sink"));
    let m = parse_monitor_line("0:\t+*A\u{2003}10x20+0+0\tA").unwrap();
    assert_eq!(m.name, "A");
    assert_eq!((m.w, m.h, m.x, m.y), (10, 20, 0, 0));
}
