# phira_replay

Replay bookkeeping for the Phira rhythm game, verified with Verus.

- `src/replay.rs` — `ReplayData` and `NoteRecord`: recording judged notes and final results.
- `src/library.rs` — the replay page's list (newest first, stable), the replay
  browser's chart folders (name order, counts, first chart id), the replays of one
  chart, matching replays to installed charts, and the time label.
- `src/names.rs` — string order as `str` compares it (UTF-8 bytes) and the last
  segment of a path.
- `src/navigation.rs` — the replay browser's state: folders, back button, touches,
  loaded scenes.
- `src/playback.rs` — the phases of replay playback and when the scene closes.
- `src/scene_wrapper.rs` — a page that hosts a scene and reacts to its requests.
- `src/launch.rs` — the chart and settings a replay is played with.
- `src/score.rs` — the seven-digit, zero-padded score text.
- `src/audio.rs` — the decoding output format and sample-count rescaling.
- `app/lib.rs` — files, JSON (serde), floating-point presentation, and the
  drivers that feed the library's decisions (browser, playback, launch).
- `tests/` — tests of the library.

Floating-point values are carried in the library as `f32` bit patterns;
`app/` converts them.
