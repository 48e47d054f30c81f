# Storage chain

The core of a parachain with an Ethereum compatible runtime, written in Verus and verified.

- `src/xcm_config/` holds the rules for messages from other chains: locations, the barrier that
  decides which messages execute, the trader that sells execution weight, the account that stands
  for a location, and the origin with which a call is dispatched.
- `src/chain_spec.rs` holds the predefined chains and the storage with which they begin.
- `src/frontier_service.rs`, `src/rpc.rs` and `src/service.rs` hold the plans by which a node
  comes up: which tasks it spawns, which RPC modules it serves and which steps its start takes.
- `app/` is the node around this core: it carries out the plans and implements the traits of the
  framework.
- `tests/` runs the core on concrete values.
