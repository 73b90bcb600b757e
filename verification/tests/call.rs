use toph_proto::call::{
    media_tag, parse_media_tag, route_recv_streams, CallAction, CallMonitor, Incoming,
    MediaSetupError, StreamEvent,
};
use toph_proto::{ControlMessage, MediaFrame, MediaKind};

fn frame(ts: u64) -> MediaFrame {
    MediaFrame { timestamp_us: ts, is_key: ts == 0, data: vec![ts as u8; 8] }
}

#[test]
fn streams_are_routed_in_either_order() {
    assert_eq!(
        route_recv_streams((MediaKind::Video, "v"), (MediaKind::Audio, "a")),
        Ok(("v", "a"))
    );
    assert_eq!(
        route_recv_streams((MediaKind::Audio, "a"), (MediaKind::Video, "v")),
        Ok(("v", "a"))
    );
}

#[test]
fn two_streams_of_one_kind_are_refused() {
    assert_eq!(
        route_recv_streams((MediaKind::Video, 1), (MediaKind::Video, 2)),
        Err(MediaSetupError::DuplicateMediaKind(MediaKind::Video))
    );
    assert_eq!(
        route_recv_streams((MediaKind::Audio, 1), (MediaKind::Audio, 2)),
        Err(MediaSetupError::DuplicateMediaKind(MediaKind::Audio))
    );
}

#[test]
fn media_tags_parse_back() {
    assert_eq!(parse_media_tag(media_tag(MediaKind::Video)), Ok(MediaKind::Video));
    assert_eq!(parse_media_tag(media_tag(MediaKind::Audio)), Ok(MediaKind::Audio));
    assert_eq!(parse_media_tag(9), Err(MediaSetupError::UnknownMediaKind(9)));
}

#[test]
fn frames_and_keyframe_requests_keep_the_call_going() {
    let mut m = CallMonitor::new();
    let (a, more) = m.on_read(StreamEvent::Item(Incoming::Video(frame(0))));
    assert!(more);
    match a {
        CallAction::ShowVideo(f) => assert!(f.is_key && f.timestamp_us == 0),
        _ => panic!("expected a video frame"),
    }
    let (a, more) = m.on_read(StreamEvent::Item(Incoming::Audio(frame(20))));
    assert!(more && matches!(a, CallAction::PlayAudio(_)));
    let (a, more) =
        m.on_read(StreamEvent::Item(Incoming::Control(ControlMessage::KeyframeRequest)));
    assert!(more && matches!(a, CallAction::SendKeyframe));
}

#[test]
fn call_end_is_reported_once() {
    let mut m = CallMonitor::new();
    m.arm_close();
    let (a, more) = m.on_read(StreamEvent::Item(Incoming::Control(ControlMessage::Bye)));
    assert!(!more && matches!(a, CallAction::CallEnded));
    let (a, more) = m.on_read(StreamEvent::Finished);
    assert!(!more && matches!(a, CallAction::Nothing));
    let (a, more) = m.on_read(StreamEvent::Failed);
    assert!(!more && matches!(a, CallAction::Nothing));
    // frames still arriving on another stream are still delivered
    let (a, more) = m.on_read(StreamEvent::Item(Incoming::Video(frame(5))));
    assert!(more && matches!(a, CallAction::ShowVideo(_)));
}

#[test]
fn a_failed_stream_ends_the_call() {
    let mut m = CallMonitor::new();
    m.arm_close();
    let (a, more) = m.on_read(StreamEvent::Failed);
    assert!(!more && matches!(a, CallAction::CallEnded));
}

#[test]
fn end_without_listener_is_not_reported() {
    let mut m = CallMonitor::new();
    let (a, more) = m.on_read(StreamEvent::Finished);
    assert!(!more && matches!(a, CallAction::Nothing));
    // a listener registered later hears the next stream end, once
    m.arm_close();
    let (a, _) = m.on_read(StreamEvent::Failed);
    assert!(matches!(a, CallAction::CallEnded));
    let (a, _) = m.on_read(StreamEvent::Finished);
    assert!(matches!(a, CallAction::Nothing));
}

#[test]
fn video_frames_are_shown_in_order() {
    let mut m = CallMonitor::new();
    for i in 0..20u64 {
        let (a, more) = m.on_read(StreamEvent::Item(Incoming::Video(frame(i))));
        assert!(more);
        match a {
            CallAction::ShowVideo(f) => {
                assert_eq!(f.timestamp_us, i);
                assert_eq!(f.data, vec![i as u8; 8]);
            }
            _ => panic!("frame {} not shown", i),
        }
    }
}
