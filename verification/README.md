# termusic

The decision logic of a terminal music player, verified with Verus.

- `src/activity.rs` — the main screen: playback steps over the play queue, how the tag
  editor is opened and left, the screen's lifecycle (context in and out, redraw flag).
- `src/app.rs` — the application: the context it lends the main screen, the pass
  counter of the main loop, when the loop ends.
- `src/config.rs`, `src/song.rs` — configuration and queue entries.
- `src/paths.rs`, `src/clock.rs` — the calls into `shellexpand` and `std::time`.
- `app/` — terminal, audio, channels and the loops that drive the library.
- `tests/` — tests of the library on concrete values.
