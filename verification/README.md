# nonthok-cashflow

An options-wheel trading bot for Alpaca Markets: sell cash-secured puts, take
assignment, sell covered calls, repeat.

- `src/` is the verified library (Verus): the wheel state machine, OCC symbol
  parsing, strike selection over a chain, assignment detection, the
  implied-volatility entry tests, order construction, fill polling and the
  limit-first, market-fallback placement sequence, the chain's date window,
  response classification, configuration checks and the report tables.
- `app/` is the program around it: broker REST and WebSocket I/O, SQLite
  history, configuration loading, and the floating-point parts (greeks, quotes,
  volatility) that are evaluated before the library decides.
- `tests/` exercises the library.

Run one step with `options-wheel`; `--report` prints the performance report.
