//! A live call: routing of the peer's media streams by their tag byte, and
//! the bookkeeping of what arrives on the receive streams.
use vstd::prelude::*;

use crate::protocol::{
    media_kind_of_tag, media_kind_tag, ControlMessage, MediaFrame, MediaKind,
};

verus! {

// ── Media stream setup ──────────────────────────────────────────────────────

/// Why the peer's media streams could not be set up.
#[derive(Debug, Clone, Copy, PartialEq, Eq, Structural)]
pub enum MediaSetupError {
    /// A stream began with a tag byte that names no media kind.
    UnknownMediaKind(u8),
    /// The peer opened two streams of the same media kind.
    DuplicateMediaKind(MediaKind),
}

/// Reads the tag byte that begins an incoming media stream.
pub fn parse_media_tag(b: u8) -> (r: Result<MediaKind, MediaSetupError>)
    ensures
        match media_kind_of_tag(b) {
            Some(k) => r == Ok::<MediaKind, MediaSetupError>(k),
            None => r == Err::<MediaKind, MediaSetupError>(MediaSetupError::UnknownMediaKind(b)),
        },
{
    match MediaKind::from_byte(b) {
        Some(k) => Ok(k),
        None => Err(MediaSetupError::UnknownMediaKind(b)),
    }
}

/// The tag byte to write first on an outgoing stream of kind `k`.
pub fn media_tag(k: MediaKind) -> (b: u8)
    ensures
        b == media_kind_tag(k),
        media_kind_of_tag(b) == Some(k),
{
    k.to_byte()
}

/// Given the peer's two incoming streams in whatever order they arrived,
/// returns them as (video, audio). Two streams of the same kind are refused.
pub fn route_recv_streams<T>(first: (MediaKind, T), second: (MediaKind, T)) -> (r: Result<
    (T, T),
    MediaSetupError,
>)
    ensures
        match r {
            Ok((video, audio)) => {
                ||| first.0 == MediaKind::Video && second.0 == MediaKind::Audio && video == first.1
                    && audio == second.1
                ||| first.0 == MediaKind::Audio && second.0 == MediaKind::Video && video
                    == second.1 && audio == first.1
            },
            Err(e) => first.0 == second.0 && e == MediaSetupError::DuplicateMediaKind(first.0),
        },
        r is Ok <==> first.0 != second.0,
{
    let (k1, s1) = first;
    let (k2, s2) = second;
    match (k1, k2) {
        (MediaKind::Video, MediaKind::Audio) => Ok((s1, s2)),
        (MediaKind::Audio, MediaKind::Video) => Ok((s2, s1)),
        (MediaKind::Video, MediaKind::Video) => Err(
            MediaSetupError::DuplicateMediaKind(MediaKind::Video),
        ),
        (MediaKind::Audio, MediaKind::Audio) => Err(
            MediaSetupError::DuplicateMediaKind(MediaKind::Audio),
        ),
    }
}

// ── Receiving ───────────────────────────────────────────────────────────────

/// Something that arrived on one of the call's receive streams.
#[derive(Debug)]
pub enum Incoming {
    Video(MediaFrame),
    Audio(MediaFrame),
    Control(ControlMessage),
}

/// What one read on a receive stream yielded.
#[derive(Debug)]
pub enum StreamEvent<T> {
    /// A whole message.
    Item(T),
    /// The peer finished the stream cleanly.
    Finished,
    /// The read failed.
    Failed,
}

/// What the owner of a call does after a read.
#[derive(Debug)]
pub enum CallAction {
    /// Hand a video frame to the decoder.
    ShowVideo(MediaFrame),
    /// Hand an audio frame to the decoder.
    PlayAudio(MediaFrame),
    /// The peer asks for a keyframe: force one on the next encode.
    SendKeyframe,
    /// The call has ended: tell the user, once.
    CallEnded,
    /// Nothing to do (the end of the call was already reported).
    Nothing,
}

/// Whether a read ends the stream it was made on: anything but a media
/// frame or a keyframe request does (a `Bye`, a clean finish, a failure).
pub open spec fn ends_stream(ev: StreamEvent<Incoming>) -> bool {
    match ev {
        StreamEvent::Item(Incoming::Video(_)) => false,
        StreamEvent::Item(Incoming::Audio(_)) => false,
        StreamEvent::Item(Incoming::Control(ControlMessage::KeyframeRequest)) => false,
        _ => true,
    }
}

/// What one read does to a call's receive side, given whether a close
/// listener is armed: frames go to their decoder, a keyframe request is
/// passed on, and a read that ends its stream reports the end of the call
/// to an armed listener, which is then disarmed.
pub open spec fn read_step(armed: bool, ev: StreamEvent<Incoming>) -> (bool, CallAction) {
    match ev {
        StreamEvent::Item(Incoming::Video(f)) => (armed, CallAction::ShowVideo(f)),
        StreamEvent::Item(Incoming::Audio(f)) => (armed, CallAction::PlayAudio(f)),
        StreamEvent::Item(Incoming::Control(ControlMessage::KeyframeRequest)) => (
            armed,
            CallAction::SendKeyframe,
        ),
        _ => if armed {
            (false, CallAction::CallEnded)
        } else {
            (false, CallAction::Nothing)
        },
    }
}

/// The bookkeeping of a live call's receive side: which reads to hand on,
/// and whether a registered close listener still waits for the end of the
/// call. A listener hears the end at most once: at the first read that ends
/// a stream after it was registered.
pub struct CallMonitor {
    close_armed: bool,
}

impl CallMonitor {
    /// Whether a close listener is registered and has not heard the end yet.
    pub closed spec fn armed(&self) -> bool {
        self.close_armed
    }

    /// The monitor of a call that has just gone live, with no close listener.
    pub fn new() -> (m: CallMonitor)
        ensures
            !m.armed(),
    {
        CallMonitor { close_armed: false }
    }

    /// A close listener was registered (or replaced): it hears the end of
    /// the call at the next read that ends a stream.
    pub fn arm_close(&mut self)
        ensures
            final(self).armed(),
    {
        self.close_armed = true;
    }

    /// Handles one read on any of the call's receive streams, and says
    /// whether to keep reading that stream.
    pub fn on_read(&mut self, ev: StreamEvent<Incoming>) -> (r: (CallAction, bool))
        ensures
            r.1 == !ends_stream(ev),
            (final(self).armed(), r.0) == read_step(old(self).armed(), ev),
    {
        match ev {
            StreamEvent::Item(Incoming::Video(f)) => (CallAction::ShowVideo(f), true),
            StreamEvent::Item(Incoming::Audio(f)) => (CallAction::PlayAudio(f), true),
            StreamEvent::Item(Incoming::Control(ControlMessage::KeyframeRequest)) => (
                CallAction::SendKeyframe,
                true,
            ),
            _ => {
                if self.close_armed {
                    self.close_armed = false;
                    (CallAction::CallEnded, false)
                } else {
                    (CallAction::Nothing, false)
                }
            },
        }
    }
}

/// The actions of a run of reads, one per read, from a monitor whose close
/// listener is (`armed`) or is not registered and waiting.
pub open spec fn monitor_run(armed: bool, evs: Seq<StreamEvent<Incoming>>) -> Seq<CallAction>
    decreases evs.len(),
{
    if evs.len() == 0 {
        Seq::empty()
    } else {
        let (armed2, a) = read_step(armed, evs[0]);
        seq![a] + monitor_run(armed2, evs.drop_first())
    }
}

/// How many times a run of reads reports the end of the call.
pub open spec fn end_reports(armed: bool, evs: Seq<StreamEvent<Incoming>>) -> nat
    decreases evs.len(),
{
    if evs.len() == 0 {
        0
    } else {
        let (armed2, a) = read_step(armed, evs[0]);
        (if a is CallEnded { 1nat } else { 0nat }) + end_reports(armed2, evs.drop_first())
    }
}

proof fn lemma_monitor_run_len(armed: bool, evs: Seq<StreamEvent<Incoming>>)
    ensures
        monitor_run(armed, evs).len() == evs.len(),
        evs.len() > 0 ==> monitor_run(armed, evs) == seq![read_step(armed, evs[0]).1]
            + monitor_run(read_step(armed, evs[0]).0, evs.drop_first()),
    decreases evs.len(),
{
    if evs.len() > 0 {
        lemma_monitor_run_len(read_step(armed, evs[0]).0, evs.drop_first());
    }
}

/// A close listener registered before the reads hears the end of the call
/// at most once, whichever stream ends first and however many end; and it
/// hears it exactly once as soon as any read ends a stream (a `Bye`, a
/// clean finish or a failure). Without a listener, nothing is reported.
pub proof fn lemma_call_end_reported_once(evs: Seq<StreamEvent<Incoming>>)
    ensures
        end_reports(true, evs) <= 1,
        end_reports(true, evs) == 1 <==> exists|i: int|
            0 <= i < evs.len() && ends_stream(#[trigger] evs[i]),
        end_reports(false, evs) == 0,
{
    lemma_end_reports(true, evs);
    lemma_end_reports(false, evs);
}

proof fn lemma_end_reports(armed: bool, evs: Seq<StreamEvent<Incoming>>)
    ensures
        !armed ==> end_reports(armed, evs) == 0,
        armed ==> (end_reports(armed, evs) == 1 <==> exists|i: int|
            0 <= i < evs.len() && ends_stream(#[trigger] evs[i])),
        end_reports(armed, evs) <= 1,
    decreases evs.len(),
{
    if evs.len() > 0 {
        let tail = evs.drop_first();
        lemma_end_reports(read_step(armed, evs[0]).0, tail);
        if armed && !ends_stream(evs[0]) {
            if exists|i: int| 0 <= i < evs.len() && ends_stream(#[trigger] evs[i]) {
                let i = choose|i: int| 0 <= i < evs.len() && ends_stream(#[trigger] evs[i]);
                assert(tail[i - 1] == evs[i]);
            }
            if exists|i: int| 0 <= i < tail.len() && ends_stream(#[trigger] tail[i]) {
                let i = choose|i: int| 0 <= i < tail.len() && ends_stream(#[trigger] tail[i]);
                assert(evs[i + 1] == tail[i]);
            }
        }
    }
}

/// Video frames read one after another are handed to the video decoder
/// one for one, in order, each unchanged, and keep the stream being read;
/// none goes to the audio decoder or the keyframe request.
pub proof fn lemma_video_frames_in_order(armed: bool, frames: Seq<MediaFrame>)
    ensures
        ({
            let evs = frames.map_values(|f: MediaFrame| StreamEvent::Item(Incoming::Video(f)));
            &&& monitor_run(armed, evs).len() == frames.len()
            &&& forall|i: int|
                0 <= i < frames.len() ==> #[trigger] monitor_run(armed, evs)[i]
                    == CallAction::ShowVideo(frames[i]) && !ends_stream(evs[i])
        }),
    decreases frames.len(),
{
    let evs = frames.map_values(|f: MediaFrame| StreamEvent::Item(Incoming::Video(f)));
    lemma_monitor_run_len(armed, evs);
    if frames.len() > 0 {
        let tail = frames.drop_first();
        lemma_video_frames_in_order(armed, tail);
        let tevs = tail.map_values(|f: MediaFrame| StreamEvent::Item(Incoming::Video(f)));
        assert(evs.drop_first() =~= tevs);
        assert forall|i: int| 0 <= i < frames.len() implies #[trigger] monitor_run(armed, evs)[i]
            == CallAction::ShowVideo(frames[i]) && !ends_stream(evs[i]) by {
            if i > 0 {
                assert(monitor_run(armed, evs)[i] == monitor_run(armed, tevs)[i - 1]);
                assert(tail[i - 1] == frames[i]);
            }
        }
    }
}

/// What one read does, for every read and listener state: a video or an
/// audio frame is handed to its own decoder unchanged (timestamp, keyframe
/// flag and data) and the stream is read on; a keyframe request is passed
/// on and the stream is read on; a `Bye`, a clean finish or a failure ends
/// the stream, reports the end exactly when a listener is armed, and leaves
/// no listener armed. Nothing but a read that ends a stream changes whether
/// a listener is armed.
pub proof fn lemma_read_hands_on(armed: bool, ev: StreamEvent<Incoming>)
    ensures
        ev matches StreamEvent::Item(Incoming::Video(f)) ==> !ends_stream(ev) && read_step(
            armed,
            ev,
        ) == (armed, CallAction::ShowVideo(f)),
        ev matches StreamEvent::Item(Incoming::Audio(f)) ==> !ends_stream(ev) && read_step(
            armed,
            ev,
        ) == (armed, CallAction::PlayAudio(f)),
        ev matches StreamEvent::Item(Incoming::Control(ControlMessage::KeyframeRequest))
            ==> !ends_stream(ev) && read_step(armed, ev) == (armed, CallAction::SendKeyframe),
        (ev matches StreamEvent::Item(Incoming::Control(ControlMessage::Bye)) || ev is Finished
            || ev is Failed) ==> ends_stream(ev) && !read_step(armed, ev).0 && (read_step(
            armed,
            ev,
        ).1 is CallEnded <==> armed) && (!armed ==> read_step(armed, ev).1 is Nothing),
        !ends_stream(ev) ==> read_step(armed, ev).0 == armed,
{
}

/// Audio frames read one after another are handed to the audio decoder
/// one for one, in order, each unchanged, and keep the stream being read;
/// none goes to the video decoder or the keyframe request.
pub proof fn lemma_audio_frames_in_order(armed: bool, frames: Seq<MediaFrame>)
    ensures
        ({
            let evs = frames.map_values(|f: MediaFrame| StreamEvent::Item(Incoming::Audio(f)));
            &&& monitor_run(armed, evs).len() == frames.len()
            &&& forall|i: int|
                0 <= i < frames.len() ==> #[trigger] monitor_run(armed, evs)[i]
                    == CallAction::PlayAudio(frames[i]) && !ends_stream(evs[i])
        }),
    decreases frames.len(),
{
    let evs = frames.map_values(|f: MediaFrame| StreamEvent::Item(Incoming::Audio(f)));
    lemma_monitor_run_len(armed, evs);
    if frames.len() > 0 {
        let tail = frames.drop_first();
        lemma_audio_frames_in_order(armed, tail);
        let tevs = tail.map_values(|f: MediaFrame| StreamEvent::Item(Incoming::Audio(f)));
        assert(evs.drop_first() =~= tevs);
        assert forall|i: int| 0 <= i < frames.len() implies #[trigger] monitor_run(armed, evs)[i]
            == CallAction::PlayAudio(frames[i]) && !ends_stream(evs[i]) by {
            if i > 0 {
                assert(monitor_run(armed, evs)[i] == monitor_run(armed, tevs)[i - 1]);
                assert(tail[i - 1] == frames[i]);
            }
        }
    }
}

} // verus!
