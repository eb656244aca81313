# tomodachi

A desktop creature that lives next to your terminal and reacts to what you run: passing tests
make it smug, failing commands make it sad, `curl ... | bash` makes it furious, and it refuses
`rm -rf` unless you say `--yolo`.

The creature's rules are a library verified with Verus (`src/`); the daemon around it
(`app/`) reads and writes the SQLite store, serves shell clients over a named pipe, watches
git repositories and draws the popup window.

## Layout

- `src/model.rs` – moods, the creature's state, events and the client protocol.
- `src/creature.rs` – how each event changes the creature (`step`), the veto on destructive
  commands, and the laws that hold of every event.
- `src/service.rs` – what the daemon does with each client request.
- `src/store.rs` – the creature's database row and the weekly roast written from the log.
- `src/watch.rs` – which repository changes are commits, and the set of known repositories.
- `src/sprite.rs`, `src/palette.rs` – the pixel-art sprite for every mood and tick.
- `src/display.rs` – frame timing, opacity, tray menu and status text of the popup.
- `src/setup.rs` – installer and client decisions.
- `src/text.rs`, `src/clock.rs` – characters and time, and the calls into `std` and `chrono`
  whose contracts are trusted.
- `tests/` – scenarios run against the compiled library.
