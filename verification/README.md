# trading_adapters

Verified core of three trading-venue adapters:

- **MT5** (`src/mt5`): MetaTrader 5 through the MT5-ZeroMQ bridge. Return-code
  tables, enumerations, timestamp conversion, the request texts sent to the
  bridge, routing of live and stream messages, the bar-type registry, order
  type selection and the reading of order reports.
- **Shioaji** (`src/shioaji`): the Shioaji FastAPI gateway. URLs, error
  texts, trade identifiers, subscription commands and the WebSocket task's
  decisions.
- **Sinopac** (`src/sinopac`): Taiwan stock, futures and options contracts.
  Taiwan-time timestamps and dates, TAIFEX multipliers and tick sizes,
  contract terms, the subscription set restored after a reconnection, and
  the feed task's decisions.

`src/text.rs` and `src/json.rs` hold the text and JSON helpers the adapters
share; `src/model.rs` the identifiers and trading enumerations.

Every function in `src/` is verified with Verus against its `requires` /
`ensures` contract. The calls into `serde_json` and `chrono` stand behind
three `external_body` wrappers whose contracts are stated in their doc
comments.

`app/` holds what is not verified: ZeroMQ and WebSocket connections, an HTTP
client, JSON decoding of messages with prices, floating-point conversions
and the Python classes and modules. `tests/` holds the tests.
