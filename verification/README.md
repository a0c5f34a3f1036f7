# geode_messaging

Private messaging between accounts, groups and newsletter lists, with a paid
inbox and a reward program, written in Verus.

The library (`src/`) holds the contract's state as plain values and proves,
for every operation, what it does to that state and which transfers and
events it asks the chain to carry out:

- `contract/` — the state (`ContractStorage`, viewed as `StorageView`), and the
  operations by topic: accounts and settings, private messages, groups,
  lists, the paid inbox, the reward program, and the queries. Each operation
  `op` has a spec function `op_step` that states its outcome; a refused
  operation leaves the state as it was.
- `laws.rs` — properties that span operations (round trips, caps, who may do
  what), proved over the spec functions.
- `table.rs` — a verified map held as a list of entries.
- `hashing.rs` — the SHA2-256 ids of messages, groups and lists, computed by
  ink!'s `hash_encoded`.
- `text.rs` — the keyword search on UTF-8 text.

`app/` runs the operations inside an ink! environment: it reads the call's
context, and performs the transfers and emits the events that the library
hands back.
