# peer

One side of a WebRTC session, as a verified state machine, in Verus.

A `Peer` decides; it does no I/O. A call such as `init`, `signal` or `close` starts a procedure and
returns a `Step`: an `Action` for the caller (open a connection, set a description, call a callback,
...) and a `Task` that says what is left. The caller carries the action out and gives the `Reply`
back with `Peer::resume`, until the action is `Finish`. Procedures may overlap.

- `src/atomic_option.rs`: the slot in which a peer keeps its connection and its data channel.
- `src/message.rs`, `src/options.rs`, `src/step.rs`: the values that go in and out.
- `src/protocol.rs`: the peer as a mathematical state machine.
- `src/peer.rs`: the peer itself, proved to take exactly the steps of `protocol.rs`.
- `src/laws.rs`: what follows for whole procedures, for every step and for every history of calls:
  candidates that come early are added in order, an offer is answered, roles are kept, every
  procedure ends. No step that goes well loses a candidate; where one cannot be added, those that
  were to be added after it are dropped.
- `src/outside.rs`: the calls into `uuid`, `webrtc` and `Arc`, with what is trusted about them.
- `app/`: the peer on tokio and `webrtc`, and the serialized form of the messages.
