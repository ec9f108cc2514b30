# termcrypt

A terminal interface for trading crypto markets (Bybit, with FTX stubs).

- `src/` is the verified library: the session state (`UserSpace`: output log,
  scrolling, the input line, prompts), the command table, the general commands
  and the text they print, the trading-session countdowns, the store's field
  codecs and settings defaults, the Bybit pair and order decisions, the FTX command handler and
  order run as state machines (with risk-based order sizing in decimals and
  the exact order calls), and the decimal operations taken from
  `rust_decimal`. Each public function states
  its behaviour in `requires`/`ensures`; the `law_*` proof functions state the
  properties that span several calls.
- `tests/` runs the library on concrete values.
- `app/` is the program: the terminal loop and rendering (`tui`, `crossterm`),
  the PoloDB store, the clock, the Bybit and FTX API calls (driving the
  library's state machines) and the floating-point Bybit order sizing.
