# robson

An execution and risk engine for leveraged cryptocurrency futures, verified
with Verus: position sizing from chart-derived stops, the position lifecycle
from armed to closed, trailing stops that only move in the position's favor,
pre-trade risk checks, entry signal strategies behind an interface users can
implement, the intent journal that makes each order run once, the executor's
steps around each exchange call, the
startup replay of missed candles, and the reconciliation decisions on
positions the store does not track, positions missing from the exchange and
orphan insurance orders.

Layout:

- `src/` — the verified library. Every function carries a contract; the
  laws that span several functions are public proof functions (`lemma_*`).
  Calls into outside crates (decimal arithmetic of `rust_decimal`, SHA-256,
  HMAC, UUIDs, the clock) go through small trusted wrappers whose doc
  comments say what is assumed of them.
- `tests/` — tests on concrete values.
- `app/` — the I/O around the library: the Binance REST and WebSocket
  clients, credentials held in memory, the event log in PostgreSQL, the
  conversion of JSON payloads to and from the library's JSON values, and the
  loops that await the exchange and the store for the executor, startup
  recovery and the reconciliation worker.
