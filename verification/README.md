# Umbra CLI

A terminal chat client for Umbra, encrypted peer-to-peer messaging.

- `src/` is the application as a verified state machine (the `umbra_cli`
  library, checked by Verus): screens and key handling, sending and
  receiving direct, group and community messages, friend requests,
  community management, the relay protocol's events and reconnect
  schedule, and the helpers the screens are drawn from (word wrapping,
  time labels, permission summaries, reaction tallies, the welcome
  animation). Outside work is requested as `Effect`s and answered through
  the `App::set_*` / `App::show_*` methods.
- `app/` runs it: terminal input and drawing (crossterm, ratatui), the
  SQLite store (rusqlite), the relay WebSocket (tokio-tungstenite), the
  discovery service (reqwest), and identity and encryption (umbra-core).
- `tests/` exercises the library on concrete inputs.
