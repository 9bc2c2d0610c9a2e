# Focus Fox

A terminal pomodoro timer. The library in `src/` is written in Verus and
carries the logic with its contracts and proofs; `app/` is the program
around it (command line, config file, history files, notifications, and
drawing with ratatui).

- `src/timer.rs`: the pomodoro state machine (work, short and long breaks).
- `src/config.rs`, `src/cli.rs`: settings and how command-line options
  override them.
- `src/stats/`: history records, the statistics fold (today, this week,
  streak, lifetime, recent), their text, the history file names, and the
  calendar arithmetic done by chrono.
- `src/tui/`: the application state machine (keys and clock ticks in, next
  state and outside work out) and the text the interface draws.
- `src/text.rs`: decimal numbers and padding for the texts above.

Durations in the library are nanosecond counts held in a `u128`, which
represent any `std::time::Duration` exactly; days are chrono's day numbers
(days since the start of the common era).
