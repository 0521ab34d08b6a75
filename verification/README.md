# vigilance

A desktop resource watcher: it polls memory and disk use, listens to the
battery service on the system bus, and raises desktop notifications
(`notify-send`) when a reading crosses a configured threshold.

Layout:

- `src/` — the verified library (Verus). Settings and their defaults, the
  battery/memory/disk alert rules, the arguments handed to `notify-send`,
  byte-size formatting, the ranking of processes by memory use, the log
  level setting, and reading binary64 numbers from their bit patterns (the
  shares of memory and disk in use are computed in floating point by the
  application, and the library compares and prints them exactly as the
  floating-point code would).
- `app/` — the program around it: reading the settings file, the system
  counters and the system bus, the polling threads and event loop, and
  running `notify-send`.
- `tests/` — tests of the library, including comparisons of the integer
  formatting and comparisons with Rust's floating-point formatting.
