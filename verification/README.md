# rustycode

A terminal client for the OpenCode server, written as a verified library
(`src/`, checked with Verus) and a thin program around it (`app/`).

- `src/` holds the client's logic with its contracts: the state and what
  every server event and key does to it (`state`, `state_events`, `input`,
  `flows`), the event-stream decoding and reconnection policy (`sse`), the
  HTTP routes (`api`), what each part of the screen shows (`view`,
  `message_view`, `dialog_view`, `panel_view`, `editor`, `screen`), themes,
  filters, text helpers, and the properties that span several operations
  (`laws`).
- `app/` parses the server's JSON, performs the HTTP calls and the event
  stream reads, runs the terminal loop and draws with ratatui.
- `tests/` exercises the library on concrete values.

The session status map (`status_map`) is a vector of entries with distinct
keys, viewed as a `Map`. Its keys are session ids held as `String`, and vstd
specifies `HashMap` only for keys whose hashing and equality Verus can reason
about, which `String` keys are not; a map with an explicit uniqueness invariant
states the same lookups and updates and can be proved.

For the same reason a provider's models (`types::Provider::models`) are a
`Vec<Model>`: the server sends them as an object keyed by model id, and the
program lists them in the order of their keys, each model carrying its id.
