# Radix engine nodes, verified

The node store of the Radix engine, with its contracts and laws proved.

- `src/engine/node.rs`: engine nodes (`RENode`, `HeapRENode`): listing their
  substate offsets, flattening them into substates, borrowing a substate
  (loading store entries on first use), and dropping nodes. The laws that tie
  these together are proof functions at the end of the file.
- `src/model.rs`: substates, the key-value and non-fungible stores, the
  offset-to-substate map, and the flattening of a store into substates.
- `src/entries.rs`: association lists read as maps, and their lemmas; the
  lookup, loading and in-place update shared by both stores.
- `src/engine/wasm_runtime.rs`, `src/engine/interpreters/wasm_runtime.rs`: for
  each request of running WebAssembly code, the system call that serves it;
  the runtime that does nothing but charge cost units.
- `src/fee.rs`: the fee reserve that cost units are drawn from.
- `src/data/manifest_blob.rs`: references to manifest blobs.
- `src/resource/auth_zone.rs`: auth zone invocations, which auth zone they
  go to, and the invocation built for each auth zone call.
- `app/`: the code that carries out system calls against a system API.
