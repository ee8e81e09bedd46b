# market_intelligence

A BTC market-intelligence service: it backfills and streams Binance market
data into SQLite, derives higher timeframes, feature, regime and scenario
snapshots, raises alerts when they change, tracks the health of its data
sources and serves all of it over an HTTP API.

## Layout

- `src/` — the verified library (Verus). Every verified function states its
  result in `ensures`; laws that relate several functions are public proof
  functions. The few trusted wrappers around std (`String::push`, the system
  clock) and serde_json say in their doc comments what they claim; those
  around the clock claim nothing of the time they read.
  - `text.rs` — decimal rendering, ASCII lower-casing, slash trimming, joining.
  - `market_data.rs` — instruments, data sources, timeframes, timestamps.
  - `json.rs` — JSON documents as plain values (parsed by serde_json) and
    the lookups of an object's fields and an array's entries.
  - `clients.rs` — REST requests and URLs, response acceptance, websocket
    stream URLs, subscribe messages, the decisions of a bounded websocket read.
  - `adapters.rs` — Binance, Kraken and CoinGecko hosts, paths, request
    builders, stream names and combined-stream dispatch.
  - `payloads.rs` — the reading of exchange answers: the fields taken out
    of their JSON, the fields required, the order they are checked in, their
    errors, and what an accepted answer yields.
  - `normalization.rs` — symbol, timestamp and kline-window normalisation.
  - `health.rs` — source statuses, staleness classification, failed-sync status.
  - `analytics.rs` — derivation targets and windows, gap detection, regime
    and direction labels, scenario odds in basis points.
  - `persistence.rs` — stored records, identifiers of stored rows, label
    encodings, queries and query services.
  - `service.rs` — configuration, API answers, alert derivation, live-sync
    bookkeeping, the clock.
- `app/` — the program around the library: HTTP and websocket I/O, decimal
  texts of exchange answers read into floating-point prices, the
  floating-point analytics, the SQLite store and the axum API.
- `tests/` — tests of the library.
