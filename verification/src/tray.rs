//! The tray application's decisions: what each menu choice, hotkey press
//! and finished operation changes, and which effects the event loop then
//! carries out.

use vstd::prelude::*;

use crate::config::Config;
use crate::recorder::{timer_label, timer_label_spec};
use crate::text::{push_str, string_of};

verus! {

/// Where the application is: waiting for ffmpeg to be found or
/// downloaded, idle, or recording.
#[derive(Debug, Clone, Copy, PartialEq, Eq, Structural)]
pub enum Phase {
    PreparingFfmpeg,
    Idle,
    Recording,
}

/// A menu item the user chose; check items carry their new state.
#[derive(Debug, Clone, Copy, PartialEq, Eq, Structural)]
pub enum MenuChoice {
    StartStop,
    OpenFolder,
    SystemAudio(bool),
    Microphone(bool),
    Preset1080p60(bool),
    Quit,
    Monitor(usize),
    Unknown,
}

/// The tray icon shown.
#[derive(Debug, Clone, Copy, PartialEq, Eq, Structural)]
pub enum TrayIcon {
    Idle,
    Recording,
}

/// How the tray menu starts out: which monitor items are checked, whether
/// the monitor submenu is shown at all, and the option check items.
pub struct MenuChecks {
    pub monitors: Vec<bool>,
    pub show_monitor_menu: bool,
    pub system_audio: bool,
    pub microphone: bool,
    pub preset_1080p60: bool,
}

/// The initial check states of the tray menu for `monitor_count` monitor
/// items: the configured monitor is checked and no other, the submenu is
/// shown only when there is a monitor to pick, and each option mirrors its
/// setting.
pub fn menu_checks(cfg: &Config, monitor_count: usize) -> (r: MenuChecks)
    ensures
        r.monitors@.len() == monitor_count,
        forall|i: int| 0 <= i < monitor_count ==> #[trigger] r.monitors@[i] == (i == cfg.monitor_index),
        r.show_monitor_menu == (monitor_count > 0),
        r.system_audio == cfg.system_audio,
        r.microphone == cfg.microphone,
        r.preset_1080p60 == cfg.preset_1080p60,
{
    let mut monitors: Vec<bool> = Vec::new();
    let mut i: usize = 0;
    while i < monitor_count
        invariant
            i <= monitor_count,
            monitors@.len() == i,
            forall|j: int| 0 <= j < i ==> #[trigger] monitors@[j] == (j == cfg.monitor_index),
        decreases monitor_count - i,
    {
        monitors.push(i == cfg.monitor_index);
        i += 1;
    }
    MenuChecks {
        monitors,
        show_monitor_menu: monitor_count > 0,
        system_audio: cfg.system_audio,
        microphone: cfg.microphone,
        preset_1080p60: cfg.preset_1080p60,
    }
}

/// Something the event loop does on the application's behalf.
#[derive(Debug)]
pub enum Effect {
    /// Start a recording with the current settings, then report with
    /// `start_finished`.
    StartRecording,
    /// Stop the recording, then report with `stop_finished`.
    StopRecording,
    /// Open the recordings folder.
    OpenFolder,
    /// Write the settings to disk.
    SaveConfig,
    /// Check the monitor item at this index and uncheck the others.
    CheckMonitor(usize),
    /// Set the start/stop item's text.
    SetLabel(String),
    /// Show this tray icon.
    SetIcon(TrayIcon),
    /// Show a notification with this body.
    Notify(String),
    /// Show the notification that names the saved file and its size.
    NotifySaved,
    /// Leave the event loop.
    Quit,
}

/// `e` sets the label to `text`.
pub open spec fn is_label(e: Effect, text: Seq<char>) -> bool {
    e matches Effect::SetLabel(s) && s@ == text
}

/// `e` notifies with body `text`.
pub open spec fn is_notify(e: Effect, text: Seq<char>) -> bool {
    e matches Effect::Notify(s) && s@ == text
}

/// The application's state apart from the handles the event loop owns.
pub struct AppCore {
    pub cfg: Config,
    pub phase: Phase,
    pub quit_requested: bool,
    /// Whether the global hotkey was registered.
    pub hotkey_active: bool,
}

/// The start/stop item's text while ffmpeg is being prepared.
pub fn preparing_label() -> (r: String)
    ensures
        r@ == "Preparing FFmpeg\u{2026}"@,
{
    string_of("Preparing FFmpeg\u{2026}")
}

impl AppCore {
    /// A freshly started application: ffmpeg not ready yet.
    pub fn new(cfg: Config, hotkey_active: bool) -> (a: AppCore)
        ensures
            a.cfg == cfg,
            a.phase == Phase::PreparingFfmpeg,
            !a.quit_requested,
            a.hotkey_active == hotkey_active,
    {
        AppCore { cfg, phase: Phase::PreparingFfmpeg, quit_requested: false, hotkey_active }
    }

    /// ffmpeg preparation finished: when it succeeded the application
    /// becomes idle and offers to start; when it failed the user is told
    /// how to install ffmpeg and start stays unavailable. Outside the
    /// preparing phase nothing happens.
    pub fn ffmpeg_ready(&mut self, ok: bool) -> (r: Vec<Effect>)
        ensures
            final(self).cfg == old(self).cfg,
            final(self).quit_requested == old(self).quit_requested,
            final(self).hotkey_active == old(self).hotkey_active,
            old(self).phase != Phase::PreparingFfmpeg ==> final(self).phase == old(self).phase
                && r@.len() == 0,
            old(self).phase == Phase::PreparingFfmpeg && ok ==> final(self).phase == Phase::Idle
                && r@.len() == 1 && is_label(r@[0], "Start Recording"@),
            old(self).phase == Phase::PreparingFfmpeg && !ok ==> final(self).phase
                == Phase::PreparingFfmpeg && r@.len() == 2 && is_notify(
                r@[0],
                "FFmpeg unavailable. Install manually: winget install Gyan.FFmpeg / sudo apt install ffmpeg"@,
            ) && is_label(r@[1], "FFmpeg unavailable"@),
    {
        let mut r: Vec<Effect> = Vec::new();
        match self.phase {
            Phase::PreparingFfmpeg => {
                if ok {
                    r.push(Effect::SetLabel(string_of("Start Recording")));
                    self.phase = Phase::Idle;
                } else {
                    r.push(
                        Effect::Notify(
                            string_of(
                                "FFmpeg unavailable. Install manually: winget install Gyan.FFmpeg / sudo apt install ffmpeg",
                            ),
                        ),
                    );
                    r.push(Effect::SetLabel(string_of("FFmpeg unavailable")));
                }
            },
            _ => {},
        }
        r
    }

    /// Start or stop: idle starts a recording, recording stops it, and
    /// while ffmpeg is being prepared nothing happens.
    pub fn toggle(&mut self) -> (r: Vec<Effect>)
        ensures
            final(self).cfg == old(self).cfg,
            final(self).phase == old(self).phase,
            final(self).quit_requested == old(self).quit_requested,
            final(self).hotkey_active == old(self).hotkey_active,
            old(self).phase == Phase::Idle ==> r@.len() == 1 && r@[0] is StartRecording,
            old(self).phase == Phase::Recording ==> r@.len() == 1 && r@[0] is StopRecording,
            old(self).phase == Phase::PreparingFfmpeg ==> r@.len() == 0,
    {
        let mut r: Vec<Effect> = Vec::new();
        match self.phase {
            Phase::Idle => r.push(Effect::StartRecording),
            Phase::Recording => r.push(Effect::StopRecording),
            Phase::PreparingFfmpeg => {},
        }
        r
    }

    /// A recording start finished. On success the application is recording
    /// (notification, timer label at 00:00, recording icon); on failure it
    /// stays idle and the user is told why.
    pub fn start_finished(&mut self, result: Result<(), String>) -> (r: Vec<Effect>)
        requires
            old(self).phase == Phase::Idle,
        ensures
            final(self).cfg == old(self).cfg,
            final(self).quit_requested == old(self).quit_requested,
            final(self).hotkey_active == old(self).hotkey_active,
            result is Ok ==> final(self).phase == Phase::Recording && r@.len() == 3 && is_notify(
                r@[0],
                "Recording started"@,
            ) && is_label(r@[1], "Stop Recording (00:00)"@) && r@[2] == Effect::SetIcon(
                TrayIcon::Recording,
            ),
            result matches Err(e) ==> final(self).phase == Phase::Idle && r@.len() == 1 && is_notify(
                r@[0],
                "Failed to start recording: "@ + e@,
            ),
    {
        let mut r: Vec<Effect> = Vec::new();
        match result {
            Ok(()) => {
                r.push(Effect::Notify(string_of("Recording started")));
                r.push(Effect::SetLabel(string_of("Stop Recording (00:00)")));
                r.push(Effect::SetIcon(TrayIcon::Recording));
                self.phase = Phase::Recording;
            },
            Err(e) => {
                let mut m = string_of("Failed to start recording: ");
                push_str(&mut m, e.as_str());
                r.push(Effect::Notify(m));
            },
        }
        r
    }

    /// A recording stop finished: the application is idle again with the
    /// idle label and icon; the user is told the saved file, or that the
    /// recording stopped with errors.
    pub fn stop_finished(&mut self, ok: bool) -> (r: Vec<Effect>)
        requires
            old(self).phase == Phase::Recording,
        ensures
            final(self).cfg == old(self).cfg,
            final(self).quit_requested == old(self).quit_requested,
            final(self).hotkey_active == old(self).hotkey_active,
            final(self).phase == Phase::Idle,
            r@.len() == 3,
            ok ==> r@[0] is NotifySaved,
            !ok ==> is_notify(r@[0], "Recording stopped with errors, see litecap.log"@),
            is_label(r@[1], "Start Recording"@),
            r@[2] == Effect::SetIcon(TrayIcon::Idle),
    {
        let mut r: Vec<Effect> = Vec::new();
        if ok {
            r.push(Effect::NotifySaved);
        } else {
            r.push(Effect::Notify(string_of("Recording stopped with errors, see litecap.log")));
        }
        r.push(Effect::SetLabel(string_of("Start Recording")));
        r.push(Effect::SetIcon(TrayIcon::Idle));
        self.phase = Phase::Idle;
        r
    }

    /// A menu choice. Start/stop toggles; the folder item opens the
    /// recordings folder; the check items change their setting and save
    /// it; a monitor item selects that monitor (checking it alone) and
    /// saves; quit stops a running recording first, then quits.
    pub fn menu(&mut self, choice: MenuChoice) -> (r: Vec<Effect>)
        ensures
            final(self).hotkey_active == old(self).hotkey_active,
            final(self).phase == old(self).phase,
            match choice {
                MenuChoice::StartStop => {
                    &&& final(self).cfg == old(self).cfg
                    &&& final(self).quit_requested == old(self).quit_requested
                    &&& (old(self).phase == Phase::Idle ==> r@.len() == 1 && r@[0] is StartRecording)
                    &&& (old(self).phase == Phase::Recording ==> r@.len() == 1 && r@[0] is StopRecording)
                    &&& (old(self).phase == Phase::PreparingFfmpeg ==> r@.len() == 0)
                },
                MenuChoice::OpenFolder => {
                    &&& final(self).cfg == old(self).cfg
                    &&& final(self).quit_requested == old(self).quit_requested
                    &&& r@.len() == 1 && r@[0] is OpenFolder
                },
                MenuChoice::SystemAudio(on) => {
                    &&& final(self).cfg == (Config { system_audio: on, ..old(self).cfg })
                    &&& final(self).quit_requested == old(self).quit_requested
                    &&& r@.len() == 1 && r@[0] is SaveConfig
                },
                MenuChoice::Microphone(on) => {
                    &&& final(self).cfg == (Config { microphone: on, ..old(self).cfg })
                    &&& final(self).quit_requested == old(self).quit_requested
                    &&& r@.len() == 1 && r@[0] is SaveConfig
                },
                MenuChoice::Preset1080p60(on) => {
                    &&& final(self).cfg == (Config { preset_1080p60: on, ..old(self).cfg })
                    &&& final(self).quit_requested == old(self).quit_requested
                    &&& r@.len() == 1 && r@[0] is SaveConfig
                },
                MenuChoice::Quit => {
                    &&& final(self).cfg == old(self).cfg
                    &&& final(self).quit_requested
                    &&& (old(self).phase == Phase::Recording ==> r@.len() == 2 && r@[0] is StopRecording
                        && r@[1] is Quit)
                    &&& (old(self).phase != Phase::Recording ==> r@.len() == 1 && r@[0] is Quit)
                },
                MenuChoice::Monitor(i) => {
                    &&& final(self).cfg == (Config { monitor_index: i, ..old(self).cfg })
                    &&& final(self).quit_requested == old(self).quit_requested
                    &&& r@.len() == 2 && r@[0] == Effect::CheckMonitor(i) && r@[1] is SaveConfig
                },
                MenuChoice::Unknown => {
                    &&& final(self).cfg == old(self).cfg
                    &&& final(self).quit_requested == old(self).quit_requested
                    &&& r@.len() == 0
                },
            },
    {
        let mut r: Vec<Effect> = Vec::new();
        match choice {
            MenuChoice::StartStop => {
                return self.toggle();
            },
            MenuChoice::OpenFolder => r.push(Effect::OpenFolder),
            MenuChoice::SystemAudio(on) => {
                self.cfg.system_audio = on;
                r.push(Effect::SaveConfig);
            },
            MenuChoice::Microphone(on) => {
                self.cfg.microphone = on;
                r.push(Effect::SaveConfig);
            },
            MenuChoice::Preset1080p60(on) => {
                self.cfg.preset_1080p60 = on;
                r.push(Effect::SaveConfig);
            },
            MenuChoice::Quit => {
                if self.phase == Phase::Recording {
                    r.push(Effect::StopRecording);
                }
                r.push(Effect::Quit);
                self.quit_requested = true;
            },
            MenuChoice::Monitor(i) => {
                self.cfg.monitor_index = i;
                r.push(Effect::CheckMonitor(i));
                r.push(Effect::SaveConfig);
            },
            MenuChoice::Unknown => {},
        }
        r
    }

    /// The global hotkey was pressed: it toggles recording when it is
    /// registered and ffmpeg is ready, and does nothing otherwise.
    pub fn hotkey_pressed(&mut self) -> (r: Vec<Effect>)
        ensures
            final(self).cfg == old(self).cfg,
            final(self).phase == old(self).phase,
            final(self).quit_requested == old(self).quit_requested,
            final(self).hotkey_active == old(self).hotkey_active,
            (!old(self).hotkey_active || old(self).phase == Phase::PreparingFfmpeg) ==> r@.len() == 0,
            (old(self).hotkey_active && old(self).phase == Phase::Idle) ==> r@.len() == 1
                && r@[0] is StartRecording,
            (old(self).hotkey_active && old(self).phase == Phase::Recording) ==> r@.len() == 1
                && r@[0] is StopRecording,
    {
        if self.hotkey_active && self.phase != Phase::PreparingFfmpeg {
            self.toggle()
        } else {
            Vec::new()
        }
    }

    /// The periodic timer: while recording, the start/stop item shows the
    /// elapsed time; otherwise nothing changes.
    pub fn tick(&self, elapsed_secs: u64) -> (r: Vec<Effect>)
        ensures
            self.phase == Phase::Recording ==> r@.len() == 1 && is_label(
                r@[0],
                timer_label_spec(elapsed_secs),
            ),
            self.phase != Phase::Recording ==> r@.len() == 0,
    {
        let mut r: Vec<Effect> = Vec::new();
        if self.phase == Phase::Recording {
            r.push(Effect::SetLabel(timer_label(elapsed_secs)));
        }
        r
    }
}

} // verus!
