# lightning_kit

Building blocks of a Lightning node and of a Lightning service provider, verified with Verus.

- `src/sip/`: swap-in-potentiam. The witness script of a SIP address, its P2WSH address, and
  the witnesses of its two spending paths, byte for byte; their satisfaction weights; the protocol messages; the
  client handler, which tracks the requests it sent until they are answered; the service handler.
- `src/persist.rs`: the key-value store interface and the persistence of a node's state through
  it, with the keys that channel monitors are stored under and how they are read back.
- `src/fs_store.rs`: the checks, the temporary-file names and the listing rule of the
  file-system store.
- `src/tx_sync/`: the bookkeeping of transaction sync against an Esplora server: registered
  transactions and outputs, and the step-by-step decisions of a sync.
- `src/btc.rs`: the `bitcoin` types the library carries and the calls it makes into `bitcoin`,
  each with its contract.
- `src/encoding.rs`, `src/keyed.rs`: hex and decimal text, and keyed vectors with their lemmas.

`app/` holds what the library cannot: the file system behind the store, the Esplora client
behind a sync, the randomness and the message and event queues around the SIP handlers, and
the serde forms of the messages. `tests/` runs the library on concrete values.
