//! File locations: the platform's path joining, the data directory, the
//! bundled ffmpeg binary and where it is downloaded from.

use vstd::prelude::*;

use crate::text::{chars_of, push_char, push_str, string_of};

verus! {

/// The two desktop platforms the recorder runs on.
#[derive(Debug, Clone, Copy, PartialEq, Eq, Structural)]
pub enum Platform {
    Windows,
    Linux,
}

/// A path separator on `p`.
pub open spec fn is_sep(p: Platform, c: char) -> bool {
    c == '/' || (p == Platform::Windows && c == '\\')
}

/// The separator `Path::join` inserts on `p`.
pub open spec fn main_sep(p: Platform) -> char {
    if p == Platform::Windows {
        '\\'
    } else {
        '/'
    }
}

/// An ASCII letter.
pub open spec fn is_ascii_alpha(c: char) -> bool {
    (65 <= (c as u32) <= 90) || (97 <= (c as u32) <= 122)
}

/// A bare Windows drive prefix such as `C:`.
pub open spec fn is_drive_only(p: Platform, base: Seq<char>) -> bool {
    p == Platform::Windows && base.len() == 2 && base[1] == ':' && is_ascii_alpha(base[0])
}

/// `Path::new(base).join(comp)` for a relative `comp` without a prefix or
/// root: a separator goes between them unless `base` is empty, already
/// ends in a separator, or is a bare drive prefix on Windows.
pub open spec fn join(p: Platform, base: Seq<char>, comp: Seq<char>) -> Seq<char> {
    if base.len() == 0 || is_sep(p, base.last()) || is_drive_only(p, base) {
        base + comp
    } else {
        base.push(main_sep(p)) + comp
    }
}

/// Executable `join` (see there).
pub fn join_path(p: Platform, base: &str, comp: &str) -> (r: String)
    ensures
        r@ == join(p, base@, comp@),
{
    let v = chars_of(base);
    let n = v.len();
    let mut r = string_of(base);
    let windows = match p {
        Platform::Windows => true,
        Platform::Linux => false,
    };
    let no_sep = if n == 0 {
        true
    } else {
        let last = v[n - 1];
        let drive = windows && n == 2 && v[1] == ':' && ((65 <= v[0] as u32 && v[0] as u32 <= 90)
            || (97 <= v[0] as u32 && v[0] as u32 <= 122));
        last == '/' || (windows && last == '\\') || drive
    };
    if !no_sep {
        push_char(&mut r, if windows { '\\' } else { '/' });
    }
    push_str(&mut r, comp);
    r
}

/// The data directory: the project's data directory when the platform
/// provides one, otherwise `.`.
pub open spec fn data_dir_spec(project_data_dir: Option<Seq<char>>) -> Seq<char> {
    match project_data_dir {
        Some(d) => d,
        None => "."@,
    }
}

/// The data directory (see `data_dir_spec`).
pub fn data_dir(project_data_dir: Option<String>) -> (r: String)
    ensures
        r@ == data_dir_spec(
            match project_data_dir {
                Some(d) => Some(d@),
                None => None,
            },
        ),
{
    match project_data_dir {
        Some(d) => d,
        None => string_of("."),
    }
}

/// The ffmpeg executable's file name on `p`.
pub open spec fn ffmpeg_bin_spec(p: Platform) -> Seq<char> {
    if p == Platform::Windows {
        "ffmpeg.exe"@
    } else {
        "ffmpeg"@
    }
}

/// The ffmpeg executable's file name on `p`.
pub fn ffmpeg_bin(p: Platform) -> (r: &'static str)
    ensures
        r@ == ffmpeg_bin_spec(p),
{
    match p {
        Platform::Windows => "ffmpeg.exe",
        Platform::Linux => "ffmpeg",
    }
}

/// Where the portable ffmpeg build for `p` is downloaded from.
pub open spec fn download_url_spec(p: Platform) -> Seq<char> {
    if p == Platform::Windows {
        "https://github.com/BtbN/FFmpeg-Builds/releases/latest/download/ffmpeg-master-latest-win64-gpl.zip"@
    } else {
        "https://github.com/BtbN/FFmpeg-Builds/releases/latest/download/ffmpeg-master-latest-linux64-gpl.tar.xz"@
    }
}

/// Where the portable ffmpeg build for `p` is downloaded from.
pub fn download_url(p: Platform) -> (r: &'static str)
    ensures
        r@ == download_url_spec(p),
{
    match p {
        Platform::Windows => "https://github.com/BtbN/FFmpeg-Builds/releases/latest/download/ffmpeg-master-latest-win64-gpl.zip",
        Platform::Linux => "https://github.com/BtbN/FFmpeg-Builds/releases/latest/download/ffmpeg-master-latest-linux64-gpl.tar.xz",
    }
}

/// The directory that holds the bundled ffmpeg: `<data_dir>/ffmpeg`.
pub fn ffmpeg_dir(p: Platform, data_dir: &str) -> (r: String)
    ensures
        r@ == join(p, data_dir@, "ffmpeg"@),
{
    join_path(p, data_dir, "ffmpeg")
}

/// `<data_dir>/ffmpeg/ffmpeg(.exe)`.
pub fn bundled_path(p: Platform, data_dir: &str) -> (r: String)
    ensures
        r@ == join(p, join(p, data_dir@, "ffmpeg"@), ffmpeg_bin_spec(p)),
{
    let dir = ffmpeg_dir(p, data_dir);
    join_path(p, dir.as_str(), ffmpeg_bin(p))
}

/// The archive's temporary download file: `<data_dir>/ffmpeg/download.tmp`.
pub fn download_temp_path(p: Platform, data_dir: &str) -> (r: String)
    ensures
        r@ == join(p, join(p, data_dir@, "ffmpeg"@), "download.tmp"@),
{
    let dir = ffmpeg_dir(p, data_dir);
    join_path(p, dir.as_str(), "download.tmp")
}

/// ffmpeg's log file: `<data_dir>/litecap.log`.
pub fn log_path(p: Platform, data_dir: &str) -> (r: String)
    ensures
        r@ == join(p, data_dir@, "litecap.log"@),
{
    join_path(p, data_dir, "litecap.log")
}

/// The configuration file, `<config_dir>/config.toml`, when the platform
/// provides a configuration directory.
pub fn config_path(p: Platform, config_dir: Option<&str>) -> (r: Option<String>)
    ensures
        match config_dir {
            Some(d) => r matches Some(s) && s@ == join(p, d@, "config.toml"@),
            None => r is None,
        },
{
    match config_dir {
        Some(d) => Some(join_path(p, d, "config.toml")),
        None => None,
    }
}

/// Whether `s` ends with `suffix`.
pub open spec fn ends_with(s: Seq<char>, suffix: Seq<char>) -> bool {
    suffix.len() <= s.len() && s.skip(s.len() - suffix.len()) == suffix
}

/// Executable `ends_with`.
pub fn str_ends_with(s: &str, suffix: &str) -> (r: bool)
    ensures
        r == ends_with(s@, suffix@),
{
    let a = chars_of(s);
    let b = chars_of(suffix);
    if b.len() > a.len() {
        return false;
    }
    let off = a.len() - b.len();
    assert(a@.len() == a.len());
    let mut i: usize = 0;
    while i < b.len()
        invariant
            a@ == s@,
            b@ == suffix@,
            off + b@.len() == a@.len(),
            a@.len() <= usize::MAX,
            i <= b@.len(),
            forall|j: int| 0 <= j < i ==> a@[off + j] == b@[j],
        decreases b@.len() - i,
    {
        if a[off + i] != b[i] {
            assert(a@.skip(off as int)[i as int] != b@[i as int]);
            return false;
        }
        i += 1;
    }
    assert(a@.skip(off as int) =~= b@);
    true
}

/// The archive member that holds the ffmpeg binary on `p`.
pub open spec fn ffmpeg_entry_suffix(p: Platform) -> Seq<char> {
    if p == Platform::Windows {
        "bin/ffmpeg.exe"@
    } else {
        "bin/ffmpeg"@
    }
}

/// Whether the archive member named `name` is the ffmpeg binary: its name
/// ends with `bin/ffmpeg.exe` (zip, Windows) or `bin/ffmpeg` (tar, Linux).
pub fn is_ffmpeg_entry(p: Platform, name: &str) -> (r: bool)
    ensures
        r == ends_with(name@, ffmpeg_entry_suffix(p)),
{
    match p {
        Platform::Windows => str_ends_with(name, "bin/ffmpeg.exe"),
        Platform::Linux => str_ends_with(name, "bin/ffmpeg"),
    }
}

/// Which ffmpeg to use, checked in order: the bundled binary when it is a
/// file, then `ffmpeg(.exe)` on `PATH` when running it with `-version`
/// succeeds, else none (it must be downloaded).
pub fn locate(p: Platform, bundled: String, bundled_is_file: bool, on_path_runs: bool) -> (r:
    Option<String>)
    ensures
        bundled_is_file ==> r == Some(bundled),
        !bundled_is_file && on_path_runs ==> (r matches Some(s) && s@ == ffmpeg_bin_spec(p)),
        !bundled_is_file && !on_path_runs ==> r is None,
{
    if bundled_is_file {
        Some(bundled)
    } else if on_path_runs {
        Some(string_of(ffmpeg_bin(p)))
    } else {
        None
    }
}

} // verus!
