# voice_everywhere

The decision logic of the Voice Everywhere dictation app (a Tauri tray app that
pastes speech-to-text into the focused window), written in Verus and proved
against its contracts.

- `src/overlay.rs` — where the recording overlay goes: monitor hit tests,
  corner and caret/field-adjacent placement in physical pixels, the placement
  reported to the web view, the overlay size per state, the enable switch and throttle
  for microphone-level events, and environment-flag values.
- `src/scale.rs` — exact `round(v * scale)` arithmetic for a monitor scale
  factor held as a ratio.
- `src/input.rs` — the focused text target (caret or field), its rectangle
  checks, and the 500 ms lookup cache.
- `src/audio_file.rs` — accepting audio files, recognising and trimming Ogg
  Opus streams (identification header, packet filter, pre-skip), and the
  stream checks of general decoding.
- `src/transcription.rs` — the guards of file transcription and export, and
  the model status.
- `src/text.rs` — exact string comparison, Unicode whitespace trimming and
  ASCII case folding over `Seq<char>`.

`app/` holds the unverified Tauri side: file and network I/O, audio decoding
with `symphonia`/`ogg`/`opus-rs` (floating-point samples), keyboard input with
`enigo`, Win32 UI Automation, and the overlay window. It calls the library for
every decision above.
