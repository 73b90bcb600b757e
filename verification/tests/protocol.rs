use toph_proto::protocol::local_hello;
use toph_proto::{
    AudioCodec, AudioParams, Hello, MediaFrame, MediaKind, VideoCodec, VideoParams, ALPN,
};

#[test]
fn media_kind_tags_are_one_and_two() {
    assert_eq!(MediaKind::from_byte(1), Some(MediaKind::Video));
    assert_eq!(MediaKind::from_byte(2), Some(MediaKind::Audio));
    assert_eq!(MediaKind::Video.to_byte(), 1);
    assert_eq!(MediaKind::Audio.to_byte(), 2);
}

#[test]
fn unknown_media_tags_are_refused() {
    for b in [0u8, 3, 4, 255] {
        assert_eq!(MediaKind::from_byte(b), None);
    }
}

#[test]
fn media_tag_round_trips() {
    for k in [MediaKind::Video, MediaKind::Audio] {
        assert_eq!(MediaKind::from_byte(k.to_byte()), Some(k));
    }
}

#[test]
fn local_hello_announces_vp8_and_mono_opus() {
    let h = local_hello(640, 480);
    assert_eq!(
        h,
        Hello {
            video: VideoParams { codec: VideoCodec::Vp8, width: 640, height: 480 },
            audio: AudioParams { codec: AudioCodec::Opus, sample_rate: 48000, channels: 1 },
        }
    );
}

#[test]
fn audio_frames_are_never_keyframes() {
    let f = MediaFrame::audio(20_000, vec![3u8; 40]);
    assert!(!f.is_key);
    assert_eq!(f.timestamp_us, 20_000);
    assert_eq!(f.data, vec![3u8; 40]);
}

#[test]
fn alpn_is_toph_version_zero() {
    assert_eq!(&ALPN, b"toph/0");
}
