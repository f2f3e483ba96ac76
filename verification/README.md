# raft_frost

Leader election in the style of Raft, with FROST (Ed25519) threshold signatures.

- `src/` is the verified library: `types` (server state and messages), `node`
  (the per-node election state machine: ticks, vote requests and replies,
  heartbeats), `ids` (server names and the local cluster layout), `signing`
  (the FROST steps a node takes) and `laws` (properties that span operations).
  Times are milliseconds on a monotonic clock that the caller reads.
- `app/` is the program around it: sockets, the on-disk log, logging, and the
  event loop that feeds clock readings and messages to the nodes.
