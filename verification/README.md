# litecap

A low-memory screen recorder for Windows and Linux that lives in the system
tray and streams captured frames straight into `ffmpeg`.

`src/` is the recorder's logic, each function with a contract proved by
Verus:

- `text` — decimal formatting, whitespace fields and lines, number parsing
  as `from_str` does it, and command-line argument lists;
- `x11` — monitor geometry from `xrandr --listmonitors`, the Wayland/X11
  session choice and the monitor menu;
- `paths` — path joining per platform, the data directory, the bundled
  ffmpeg and where it is downloaded from;
- `config` — the settings and their defaults;
- `ffmpeg` — encoder arguments, the candidates per platform and the probe
  that picks the first encoder whose test encode succeeds;
- `recorder` — the whole ffmpeg command line of a recording (Windows,
  X11, Wayland), its audio inputs and filters, the output file name;
- `capture` — the frame slot with its bounded buffer pool, the row copy
  that packs captured pixels, and the sample-and-hold pacer;
- `icon` — the two tray icons, pixel by pixel;
- `tray` — the tray application's state machine;
- `audio`, `wayland` — probed audio streams and portal outcomes.

`app/` is the program around it: the tray and event loop, ffmpeg
subprocesses, downloads, capture backends and audio devices.
