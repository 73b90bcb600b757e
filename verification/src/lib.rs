//! Wire protocol of a peer-to-peer video and audio calling app: message
//! framing, the ring / accept / reject handshake, media stream routing and
//! the bookkeeping of a live call.
use vstd::prelude::*;

pub mod call;
pub mod framing;
pub mod handshake;
pub mod protocol;
pub mod session;

pub use protocol::{
    AudioCodec, AudioParams, ControlMessage, Hello, MediaFrame, MediaKind, SignalMessage,
    VideoCodec, VideoParams, ALPN, MAX_MESSAGE_SIZE,
};

verus! {

} // verus!
