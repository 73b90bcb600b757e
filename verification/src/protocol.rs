//! Message types exchanged between two peers, and the media stream tags.
use vstd::prelude::*;

verus! {

/// ALPN identifying this protocol: the ASCII bytes of `toph/0`. The version
/// suffix changes on any breaking wire change.
pub const ALPN: [u8; 6] = [116, 111, 112, 104, 47, 48];

/// Hard cap on the payload of any single framed message (2 MiB), so that a
/// malicious peer cannot make us allocate without bound.
pub const MAX_MESSAGE_SIZE: u32 = 2097152;

// ── Negotiation types ───────────────────────────────────────────────────────

/// Video codecs a peer may announce.
#[derive(Debug, Clone, Copy, PartialEq, Eq, Structural)]
pub enum VideoCodec {
    Vp8,
}

/// Audio codecs a peer may announce.
#[derive(Debug, Clone, Copy, PartialEq, Eq, Structural)]
pub enum AudioCodec {
    Opus,
}

/// What a peer will send on its video stream.
#[derive(Debug, Clone, Copy, PartialEq, Eq, Structural)]
pub struct VideoParams {
    pub codec: VideoCodec,
    pub width: u16,
    pub height: u16,
}

/// What a peer will send on its audio stream.
#[derive(Debug, Clone, Copy, PartialEq, Eq, Structural)]
pub struct AudioParams {
    pub codec: AudioCodec,
    /// Samples per second (48000 for Opus).
    pub sample_rate: u32,
    pub channels: u8,
}

/// Exchanged once per side on the control stream right after the call is
/// accepted. Describes what this side will be sending.
#[derive(Debug, Clone, Copy, PartialEq, Eq, Structural)]
pub struct Hello {
    pub video: VideoParams,
    pub audio: AudioParams,
}

/// Sample rate this side announces for its Opus audio.
pub const LOCAL_SAMPLE_RATE: u32 = 48000;

/// Number of audio channels this side announces.
pub const LOCAL_CHANNELS: u8 = 1;

/// The `Hello` a browser peer announces: VP8 video of the given size and
/// mono Opus audio at 48 kHz.
pub open spec fn browser_hello(width: u16, height: u16) -> Hello {
    Hello {
        video: VideoParams { codec: VideoCodec::Vp8, width, height },
        audio: AudioParams {
            codec: AudioCodec::Opus,
            sample_rate: LOCAL_SAMPLE_RATE,
            channels: LOCAL_CHANNELS,
        },
    }
}

/// The `Hello` a browser peer sends: VP8 video of the given size and
/// mono Opus audio at 48 kHz.
pub fn local_hello(width: u16, height: u16) -> (h: Hello)
    ensures
        h == browser_hello(width, height),
{
    Hello {
        video: VideoParams { codec: VideoCodec::Vp8, width, height },
        audio: AudioParams {
            codec: AudioCodec::Opus,
            sample_rate: LOCAL_SAMPLE_RATE,
            channels: LOCAL_CHANNELS,
        },
    }
}

/// Every browser `Hello` announces VP8 video of exactly the requested size
/// and mono Opus audio at 48 kHz: the audio does not depend on the video
/// size, and two browsers differ at most in their video size.
pub proof fn lemma_browser_hello_announces(width: u16, height: u16, w2: u16, h2: u16)
    ensures
        browser_hello(width, height).video == (VideoParams {
            codec: VideoCodec::Vp8,
            width: width,
            height: height,
        }),
        browser_hello(width, height).audio == (AudioParams {
            codec: AudioCodec::Opus,
            sample_rate: 48000u32,
            channels: 1u8,
        }),
        browser_hello(width, height).audio == browser_hello(w2, h2).audio,
        browser_hello(width, height) == browser_hello(w2, h2) <==> (width == w2 && height == h2),
{
}

// ── Media stream types ──────────────────────────────────────────────────────

/// First byte written on every outgoing unidirectional stream, so that the
/// receiving side can route the stream to the right receiver.
#[derive(Debug, Clone, Copy, PartialEq, Eq, Structural)]
pub enum MediaKind {
    Video,
    Audio,
}

/// The tag byte of each media kind on the wire.
pub open spec fn media_kind_tag(k: MediaKind) -> u8 {
    match k {
        MediaKind::Video => 1,
        MediaKind::Audio => 2,
    }
}

/// The media kind a tag byte names, if any.
pub open spec fn media_kind_of_tag(b: u8) -> Option<MediaKind> {
    if b == 1 {
        Some(MediaKind::Video)
    } else if b == 2 {
        Some(MediaKind::Audio)
    } else {
        None
    }
}

impl MediaKind {
    /// Reads a stream tag byte: 1 is video, 2 is audio, anything else is unknown.
    pub fn from_byte(b: u8) -> (r: Option<MediaKind>)
        ensures
            r == media_kind_of_tag(b),
    {
        match b {
            1 => Some(MediaKind::Video),
            2 => Some(MediaKind::Audio),
            _ => None,
        }
    }

    /// The tag byte that announces a stream of this kind.
    pub fn to_byte(self) -> (b: u8)
        ensures
            b == media_kind_tag(self),
    {
        match self {
            MediaKind::Video => 1,
            MediaKind::Audio => 2,
        }
    }
}

/// Video streams are tagged 1 and audio streams 2; a tag byte read back
/// names the kind that wrote it, and no other byte names a kind.
pub proof fn lemma_media_tag_roundtrip(k: MediaKind, b: u8)
    ensures
        media_kind_of_tag(media_kind_tag(k)) == Some(k),
        media_kind_tag(MediaKind::Video) == 1,
        media_kind_tag(MediaKind::Audio) == 2,
        media_kind_of_tag(1) == Some(MediaKind::Video),
        media_kind_of_tag(2) == Some(MediaKind::Audio),
        media_kind_of_tag(b) matches Some(k2) ==> media_kind_tag(k2) == b,
        media_kind_of_tag(b) is Some <==> (b == 1 || b == 2),
{
}

/// One encoded media frame. `data` is an opaque codec payload (VP8 or Opus
/// bytes, exactly as produced by the browser's encoder).
#[derive(Debug, Clone)]
pub struct MediaFrame {
    /// Sender-side capture timestamp in microseconds.
    pub timestamp_us: u64,
    /// True if this is a keyframe / intra-frame. Always false for audio.
    pub is_key: bool,
    pub data: Vec<u8>,
}

impl MediaFrame {
    /// An audio frame: audio frames are never keyframes.
    pub fn audio(timestamp_us: u64, data: Vec<u8>) -> (f: MediaFrame)
        ensures
            f.timestamp_us == timestamp_us,
            !f.is_key,
            f.data@ == data@,
    {
        MediaFrame { timestamp_us, is_key: false, data }
    }
}

// ── Control and signalling messages ─────────────────────────────────────────

/// Sent on the control stream after the initial `Hello`.
#[derive(Debug, Clone, Copy, PartialEq, Eq, Structural)]
pub enum ControlMessage {
    /// The receiver's video decoder is lost; the sender must emit a keyframe next.
    KeyframeRequest,
    /// Clean hangup: the sender is closing the call.
    Bye,
}

/// The ring / accept / reject handshake that precedes a call.
#[derive(Debug, Clone, Copy, PartialEq, Eq, Structural)]
pub enum SignalMessage {
    /// The dialler asks the callee to take the call.
    Ring,
    /// The callee takes the call.
    Accept,
    /// The callee declines the call.
    Reject,
}

} // verus!
