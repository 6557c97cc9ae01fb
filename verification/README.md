# snarkos

The decision logic of a validator and of a beacon node, verified with Verus.

* `src/consensus/`: the safety rules of a round-based BFT protocol. `safety.rs` decides on votes
  and timeouts, `laws.rs` states what holds over any sequence of requests.
* `src/beacon/`: the heartbeat of a beacon (`heartbeat.rs`) and the processing of what its peers
  send (`inbound.rs`). Both are state machines that name the next action and take its outcome.
  `heartbeat_laws.rs` and `inbound_laws.rs` state what holds of every run.
* `app/`: the node around it, which carries out the actions.

The only code that is trusted without proof is in `src/beacon/sampling.rs`: two calls into `rand`.
