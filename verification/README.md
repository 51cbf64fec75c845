# rithmic_rs

The verified core of a client for Rithmic's R | Protocol API, written in
Verus. Every function in `src/` carries a contract that Verus proves, except
two small wrappers whose contracts are trusted: `text::push_char`, which
calls std's `String::push`, and `config::debug_quoted`, which calls
`format!("{:?}", s)` and whose result is named by `config::debug_str`.

A modification is checked by the price rule of its type: a needed limit
price must be present, and a needed trigger may be stood in for by the
price.

- `src/config.rs`: environments, account identities, session configuration
  and its builder, the redacted debug text.
- `src/commands.rs`, `src/orders.rs`: the order commands and the price rules
  they are checked against. Priced commands take the price type as a
  parameter and never read a price.
- `src/requests.rs`, `src/sender.rs`, `src/order_entry.rs`: every outgoing
  request, filled in around a fresh message id.
- `src/framing.rs`, `src/receiver.rs`: the length-prefixed frame, and how an
  inbound message is classified and routed by its template.
- `src/error.rs`, `src/text.rs`: the error type, rp_code classification and
  the text helpers they show through.
- `src/ping_manager.rs`: WebSocket ping/pong timeout detection on a clock
  the caller supplies.

`app/` is the host side: environment variables, the tokio clock, logging,
protobuf envelope decoding, the standard `Display`/`Error` traits, and serde.
