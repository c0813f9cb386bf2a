# shurectl

A terminal control panel for Shure USB microphones (MVX2U and relatives),
built around a library whose protocol, preset and UI-state logic is proved
correct with Verus.

## Layout

- `src/` — the verified library
  - `protocol.rs` — HID packet framing, CRC-16/ANSI, GET/SET command
    builders, response parsing and decoding into the device state
  - `presets.rs` — preset slots: snapshot of a device state, restoring it,
    one-line summaries, file names
  - `app.rs`, `keys.rs` — the TUI state machine: tabs, focus, value
    adjustment, toggles, key handling and preset renaming
  - `actions.rs` — what carrying out an action does to the app (status
    lines, saving/loading/deleting slots, the settings sent after a load)
  - `device_plan.rs` — which HID interfaces are supported microphones, which
    one to open, which features to read to learn a device's state
  - `probe.rs` — the read-only feature probe: packets, known feature names,
    hex dumps and summary lines
  - `ruler.rs` — the dB ruler under the level meter
  - `text.rs` — decimal text and the two `String` operations the library trusts
  - `*_laws.rs` — the properties that span several functions
- `app/` — the program: terminal UI (ratatui/crossterm), HID I/O (hidapi),
  preset files (serde/toml), command line (clap)
- `tests/` — tests of the library

## Usage

```
shurectl                 # open the only connected microphone
shurectl --device PATH   # open a specific one (see --list)
shurectl --list          # list connected microphones
shurectl --demo          # run without a device
shurectl probe --page 0x01 --also-mix-class
```
