# marketfeed

Daily market data collection, rule-based signals and reports, as a verified
Verus library (`src/`) with a thin command-line program around it (`app/`).

- `src/calendar.rs` — calendar days as day numbers; text conversions through chrono.
- `src/text.rs` — character-sequence specifications and the string operations the parsers use.
- `src/providers/` — requests to Stooq, Eastmoney and Alpha Vantage, and the parsing of their answers.
- `src/utils/` — CSV parsing, number grammar, market calendars.
- `src/services/` — error explanations, signals, streaks, backtest positions, updates,
  bootstraps, reports and e-mail settings.
- `app/` — HTTP, SQLite, configuration files, floating-point indicators, SMTP and the CLI.
- `tests/` — tests of the library on concrete values.
