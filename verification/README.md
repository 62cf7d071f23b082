# ampterm

The state and logic of a terminal client for Subsonic-compatible music servers, written in
Verus: the public functions state their behaviour in their contracts, proved by Verus. A few
things are left out of the library and named in the doc comments: the order in which the task
list walks its map, and the parsing of time-stamped lyrics, which are kept as text.

- `src/` is the verified library: the play queue and its cursor, selections and deletion,
  the playlist views, the login form, the focus and popups of the main screen, the tempo
  counter, the task list, the lyrics and cover views, the request delays, and the text that
  the views show.
- `app/` is the terminal side: key events, command-line flags, drawing with the widgets,
  the text fields of the login form, the commands that give the configured credentials, the
  serialisable forms of a few values, and the volume and speed gauges and tempo, which hold
  floating-point values, and the main loop's queue of actions around the library's verified
  step.
- `tests/` runs the library on concrete values.

Outside crates: `rand` shuffles items queued in random order (behind a trusted wrapper in
`src/random.rs`); `ratatui`, `crossterm`, `tui-textarea`, `clap` and `serde` serve `app/`.
