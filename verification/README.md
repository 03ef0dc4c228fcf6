# synoplayer

A command-line and terminal audio player for Synology Audio Station, with its core
verified by Verus.

- `src/` — the verified library: Web API calls and their decoding, the play queue and player
  state, the audio engine's decisions (which player to start, how to set the volume), the
  cache policy (naming, integrity, LRU eviction, TTL), credentials encoding, history,
  configuration, the IPC protocol, the command line's decisions and the terminal player's
  state machine and views. Outside crates (`sha2`, `chrono`, `rand`, `dirs`) are reached
  through small trusted wrappers whose contracts are stated next to them.
- `app/` — the program around it: argument parsing (clap), HTTP (reqwest), files, the audio
  player processes, the control socket and the terminal (crossterm, ratatui).
- `tests/` — tests of the library.
