# kv_router

Decides whether a worker that is about to serve a request should pull cached
KV blocks out of another worker's pinned host memory, and if so which ones.

- `src/protocols.rs`, `src/indexer.rs`: workers, tiers, blocks, and the tables
  of matches that the block index reports.
- `src/keyed_map.rs`: the hash map that holds those tables.
- `src/decimal.rs`: decimal notation, for plan identifiers.
- `src/selection.rs`: the rules of the choice, as specification functions.
- `src/remote_g2_plan.rs`: the choice itself, proved to follow the rules.
- `src/laws.rs`: what holds of every decision, proved from the rules.
- `app/`: serde forms of the plan and of the reasons for having none.

The library holds no unproved assumptions of its own; it rests on Verus and on
vstd's specifications of the standard library.
