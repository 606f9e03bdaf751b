# leptos_solana

Wallet Standard bindings for Solana wallets in Leptos apps: discovery,
connection, message and transaction signing, and a minimal JSON-RPC client.

- `src/` is the verified library (Verus): the wallet state machine behind
  the reactive context (registration, selection, connect, disconnect,
  signing targets), the sorting of values thrown by wallets into errors
  (including the chain a wrong-chain report expected), the feature table and
  its failure reports, RPC reply handling and account / blockhash decoding,
  the transaction wire format through bincode, the System Program transfer
  (data, accounts, and the unsigned transaction built from an address text),
  and base58 display text.
  `src/laws.rs` states the properties that span operations.
- `app/` is the browser side: `wasm-bindgen` access to the wallets' JavaScript
  objects (including reading a thrown value's code, with its floating-point
  handling, message, name and logs), the discovery events, `localStorage`,
  HTTP over `gloo-net` with the JSON request parameters and the parsing of
  replies into result or error, the Leptos signals and the demo
  application.
- `tests/` exercise the library on concrete values.
