# PulseDeck

Internet radio in the terminal: a station library, playlists, keybindings,
configuration, and the decisions of the audio engine.

The library under `src/` is written in Verus and verified: every function
carries a contract over a mathematical model of its data, and the laws the
program relies on are stated and proved as proof functions (metadata never
reaching the decoder, stale workers being ignored, M3U and elapsed-time
round trips, keybinding precedence, the library view keeping every station
with the favourites on top, and more).

- `src/audio/` — the engine's state machine and its laws, the ICY metadata
  demultiplexer, the prebuffer fill, the probe replay window, the bounded
  byte queue, the worker supervisor, the stream worker's connect, prebuffer
  and decode steps, codec detection, device names.
- `src/favorites.rs`, `src/favorites_set.rs`, `src/radio.rs` — the station
  library: import previews, enrichment, health, genres, loading policy.
- `src/keybindings/`, `src/event.rs` — key specifications, the registry and
  its defaults, and the mapping from key presses to actions.
- `src/config_toml/` — `pulsedeck.toml`: parsing, defaults, the values written back
  and the round-trip verdict, hot reload, and taking over the settings
  of a legacy `library.json`.
- `src/playlist.rs`, `src/cli.rs`, `src/library_sort.rs`,
  `src/library_filter.rs`, `src/elapsed_*.rs`, `src/number_jump.rs`,
  `src/persistence.rs` — playlists, the command line, the library view and
  the smaller pieces of the interface.

Calls into other crates (`toml`, `serde_json`, parts of `std`) go through a
few trusted wrappers whose contracts say what those crates document.

`app/` is the program around the library: the command line, file access,
serde formats and the `std::io` readers.
