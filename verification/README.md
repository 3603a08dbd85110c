# Better Sonar

Better Sonar switches the SteelSeries Sonar for Streamers Personal Mix between
a headset and a speaker, drives Sonar's Master - Personal from the Windows
volume media keys, and checks after every change that Sonar applied it and
that the mixes it was not asked to touch stayed as they were.

## Layout

- `src/` — the library, written in Verus and verified. Each operation that
  talks to Sonar, GG or the system is a small state machine: it says which
  request comes next, takes the reply, and its contract states what it does
  with every reply. Laws such as "at most one write, and only in Streamer
  mode" or "a failed save puts the old shortcut back" are part of these
  contracts.
  - `sonar/` — state queries, redirection changes and Master - Personal
    changes against the local Sonar API.
  - `gg.rs` — Sonar's shortcut events over the GG event socket.
  - `runtime.rs`, `tray.rs`, `shortcuts.rs`, `repeat.rs`, `keys.rs`,
    `settings_flow.rs`, `updates.rs`, `discovery.rs`, `probe.rs` — the
    application's decisions.
  - Calls outside the library stand behind small trusted wrappers:
    `urlencoding` (`percent.rs`), the wall clock (`clock.rs`), URL parsing
    through `reqwest::Url` (`discovery.rs`), `serde_json::to_string` and
    `String::from_utf16` (`gg.rs`), and `Debug` formatting (`probe.rs`).
- `tests/` — tests of the library, including an in-memory Sonar that answers
  the requests of the Sonar operations.
- `app/` — the Tauri application and the `sonar-probe` tool: HTTP, files,
  the event socket and the window, performing what the library asks for.
