# toph_proto

The wire protocol of a peer-to-peer video and audio calling app built on
iroh, as a verified library.

- `src/protocol.rs`: the message types (`Hello`, `MediaFrame`, control and
  signalling messages) and the media stream tag byte.
- `src/framing.rs`: length-prefixed framing, a reader state machine, and the
  proof that messages written one after another are read back intact and in
  order.
- `src/handshake.rs`: the ring / accept / reject handshake on both sides as
  state machines, with proofs that a rejected call never sets up media, that
  media follows only an accepted ring, and that the dialler writes its `Hello`
  before reading the callee's while the callee reads before writing.
- `src/call.rs`: routing of the peer's media streams, and the bookkeeping of a
  live call (a registered close listener hears the end of the call once;
  video frames are handed on in order).
- `src/session.rs`: ticket parsing through `iroh_base`, and the summary of the
  known paths to a peer.
- `app/`: the iroh endpoint, serde/postcard encoding and the browser bindings,
  which perform the actions the library's state machines ask for.
