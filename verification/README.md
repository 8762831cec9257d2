# nexcore_circulatory

A data transport pipeline modeled on the circulatory system, written in
Verus: the heart collects blood cells (data), enriches them with a priority
and a timestamp, and routes them by kind; vessels split routed traffic by
priority and merge streams; white cells detect threats in payloads; blood
pressure measures spare capacity. A second module maps the model onto an MCP
transport network (portal filtration of large results, selective perfusion,
health diagnosis).

Layout:

- `src/` — the verified library. `lib.rs` holds the circulatory core,
  `claude_code.rs` the MCP transport model, `ratio.rs` exact ratios of
  counts, `text.rs` substring search and decimal rendering, `clock.rs` the
  wall clock (through `nexcore-chrono`).
- `tests/` — tests of the library.
- `app/` — serde-enabled copies of the library's types (with
  `serde_json::Value` payloads and `f64` ratios) and conversions, the
  floating-point Frank-Starling regulator, and the cardiovascular bridge.

Payloads are carried by the library as their serialized JSON text, and every
ratio as an exact quotient of two counts (zero over a zero denominator).

Not carried over: the `GroundsTo` impls that tie the types to the Lex
Primitiva type system, and the bridge's use of the cardiovascular crate's own
types, because `nexcore-lex-primitiva` and `nexcore-cardiovascular` are not
available from the registry; the bridge in `app/` works on the plain values
those types hold. `app/`'s conversion of `f64` ratios reads NaN and negative
values as zero.
