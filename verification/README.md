# prism_rpc

A JSON-RPC client for Soroban RPC endpoints, whose decisions are verified with Verus.

- `src/` is the verified library. `client` builds the requests, `call` decides
  after each event what to do next, `backoff` computes the delays, `envelope`
  holds requests and responses, `status` classifies HTTP status codes, and `json`
  holds what is taken on trust from `serde_json`. `history` proves what a whole
  call amounts to: which requests are sent, after which delays, and what is
  returned.
- `app/` sends, sleeps and reads, as the library asks.
- `tests/` runs the library.
