# sip_transaction

The SIP transaction layer of RFC 3261 Section 17 as a verified Verus library.

- `src/` holds the logic: transaction keys, the four transaction state
  machines, the runner's handling of commands, the manager's bookkeeping
  (transaction tables, subscriptions, timers), the routing of incoming
  requests and responses, CANCEL matching and the answers to a CANCEL, ACK
  routing, UPDATE construction, and request and response builders. Each
  builder produces a *draft*: the ordered list of header fields and body of
  the message, stated in its contract.
- `app/` turns `rvoip_sip_core` messages into the library's plain request and
  response models, renders drafts back into `rvoip_sip_core` messages, sends
  the answers to a CANCEL, runs timers as tasks and runs the per-transaction
  command loop, whose every decision is a call into `src/runner.rs`.
- `tests/` runs the library on concrete values.

The calls into `rvoip_sip_core` and `uuid` that the logic needs stand behind
small trusted wrappers in `src/sip_types.rs`, `src/addressing.rs` and
`src/branch.rs`: whether a text parses as a URI or as a Subscription-State,
a URI's scheme, copies of header fields and URIs, and random identifiers.
Each contract states what holds of every outcome of the call; where the
result depends on chance (the identifiers), only its shape is stated.
