//! The recorder's settings and their defaults.

use vstd::prelude::*;

use crate::text::string_of;

verus! {

/// The user's settings, stored as TOML in the platform's configuration
/// directory.
#[derive(Debug)]
pub struct Config {
    pub fps: u32,
    pub output_dir: String,
    pub monitor_index: usize,
    pub system_audio: bool,
    pub microphone: bool,
    pub hotkey: String,
    pub quality: u8,
    pub max_height: Option<u32>,
    /// Forces exact 1920x1080 output at 60 fps regardless of the source
    /// monitor's native resolution/refresh (letterboxed if aspect differs).
    /// Overrides `fps` and `max_height` while enabled.
    pub preset_1080p60: bool,
}

impl Config {
    /// The frame rate used for capture and encoding.
    pub open spec fn spec_effective_fps(&self) -> u32 {
        if self.preset_1080p60 {
            60
        } else {
            self.fps
        }
    }

    /// The fps actually used for capture/encode: forced to 60 when the
    /// 1920x1080@60 preset is enabled, otherwise the configured `fps`.
    pub fn effective_fps(&self) -> (r: u32)
        ensures
            r == self.spec_effective_fps(),
    {
        if self.preset_1080p60 {
            60
        } else {
            self.fps
        }
    }

    /// The default settings, recording into `output_dir`: 30 fps, the
    /// first monitor, system sound and microphone on, hotkey `ctrl+alt+r`,
    /// quality 23, no height limit, preset off.
    pub fn default_with_output_dir(output_dir: String) -> (c: Config)
        ensures
            c.fps == 30,
            c.output_dir == output_dir,
            c.monitor_index == 0,
            c.system_audio,
            c.microphone,
            c.hotkey@ == "ctrl+alt+r"@,
            c.quality == 23,
            c.max_height is None,
            !c.preset_1080p60,
    {
        Config {
            fps: 30,
            output_dir,
            monitor_index: 0,
            system_audio: true,
            microphone: true,
            hotkey: string_of("ctrl+alt+r"),
            quality: 23,
            max_height: None,
            preset_1080p60: false,
        }
    }
}

/// The default recordings folder: the user's Videos folder when the
/// platform knows the user's folders and has one, the home folder when it
/// knows them but has no Videos folder, and `.` otherwise. `user_dirs` is
/// the Videos folder (if any) and the home folder.
pub fn default_output_dir(user_dirs: Option<(Option<String>, String)>) -> (r: String)
    ensures
        match user_dirs {
            Some((Some(video), _)) => r == video,
            Some((None, home)) => r == home,
            None => r@ == "."@,
        },
{
    match user_dirs {
        Some((Some(video), _)) => video,
        Some((None, home)) => home,
        None => string_of("."),
    }
}

} // verus!
