# ejdb

A verified client library for EJDB, an embedded database of BSON documents.

The library decides; it never calls the storage engine. An operation such as
`Collection::save` hands out a request, whoever drives it makes the call, and
hands back the reply with `operation::proceed`, until the operation is done. What
an operation asks and what it ends with is its plan, a function of the replies,
and every operation is proved to follow its plan.

- `src/native.rs` lists the requests and the replies.
- `src/operation.rs` says what it is to follow a plan.
- `src/laws.rs` holds what is proved of whole conversations, among it that an
  execution frees the query and the log that it made, that finishing a
  transaction that was ended asks nothing, and that identifiers, names and
  results come in order. Two things are not freed: the object of a database
  whose files did not open, and results that the engine gives to a count.
- `src/wire.rs` and `src/limits.rs` tell which bytes and documents the `bson`
  crate takes without a panic.
- `src/document.rs` and `src/text.rs` hold the calls into `bson` and `std` whose
  contracts are believed and not proved.
- `app/` makes the calls on the engine and frees what it owns.
