# screen_dream

The core of Screen Dream, a screen recorder, as a Verus-verified library.

- `src/` — the verified library: platform detection, settings and their
  defaults, FFmpeg command building, capability probing and binary
  resolution, capture sources and frames (cropping, pixel-format
  conversion), the DRM helper's listings and frames, KWin window listings
  and ScreenShot2 replies, the xdg-desktop-portal request and response
  handling, the recording capture loop as a state machine, and the C
  interface's conversions. Each public function states its result in its
  `ensures`; properties that span functions are public proof functions.
- `tests/` — tests of the library on concrete values.
- `app/` — the program around the library: the C interface (`sd_*`),
  processes, files, D-Bus, PipeWire, audio devices and the xcap crate.

Image files are decoded and encoded by the `image` crate behind trusted
wrappers in `src/screenshot.rs` (the bytes go in and come out as plain
values); `app/` only reads and writes the files.
