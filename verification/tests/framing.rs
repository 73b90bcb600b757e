use toph_proto::framing::{encode_frame, FrameError, FrameReader, ReadEvent, ReaderAction};
use toph_proto::MAX_MESSAGE_SIZE;

/// Reads one message from the front of `stream` with the reader, performing
/// its exact-length reads on the slice; returns the final action and how many
/// bytes were consumed.
fn read_one(stream: &[u8]) -> (ReaderAction, usize) {
    let (mut reader, mut action) = FrameReader::new();
    let mut pos = 0usize;
    loop {
        match action {
            ReaderAction::ReadExact(n) => {
                let ev = if stream.len() - pos >= n {
                    let bytes = stream[pos..pos + n].to_vec();
                    pos += n;
                    ReadEvent::Filled(bytes)
                } else if stream.len() == pos {
                    ReadEvent::Finished
                } else {
                    ReadEvent::Failed
                };
                let (r, a) = reader.step(ev);
                reader = r;
                action = a;
            }
            other => return (other, pos),
        }
    }
}

#[test]
fn frame_prefixes_little_endian_length() {
    let framed = encode_frame(&[7, 8]).unwrap();
    assert_eq!(framed, vec![2, 0, 0, 0, 7, 8]);
}

#[test]
fn frame_of_empty_message_is_a_zero_length() {
    assert_eq!(encode_frame(&[]).unwrap(), vec![0, 0, 0, 0]);
}

#[test]
fn frame_at_the_cap_is_accepted() {
    let payload = vec![5u8; MAX_MESSAGE_SIZE as usize];
    let framed = encode_frame(&payload).unwrap();
    assert_eq!(&framed[..4], &[0, 0, 32, 0]);
    assert_eq!(framed.len(), MAX_MESSAGE_SIZE as usize + 4);
}

#[test]
fn frame_above_the_cap_is_refused() {
    let payload = vec![0u8; MAX_MESSAGE_SIZE as usize + 1];
    assert_eq!(encode_frame(&payload), Err(FrameError::OutgoingTooLarge(2097153)));
}

#[test]
fn reader_asks_for_length_then_body() {
    let (reader, first) = FrameReader::new();
    assert!(matches!(first, ReaderAction::ReadExact(4)));
    let (reader, second) = reader.step(ReadEvent::Filled(vec![3, 1, 0, 0]));
    assert_eq!(reader, FrameReader::Body(259));
    assert!(matches!(second, ReaderAction::ReadExact(259)));
    let (reader, third) = reader.step(ReadEvent::Filled(vec![9u8; 259]));
    assert_eq!(reader, FrameReader::Header);
    match third {
        ReaderAction::Message(body) => assert_eq!(body, vec![9u8; 259]),
        _ => panic!("expected a message"),
    }
}

#[test]
fn reader_treats_clean_finish_as_end_of_stream() {
    let (action, _) = read_one(&[]);
    assert!(matches!(action, ReaderAction::End));
}

#[test]
fn reader_refuses_partial_length_prefix() {
    let (action, _) = read_one(&[1, 2]);
    assert!(matches!(action, ReaderAction::Fail(FrameError::HeaderUnreadable)));
}

#[test]
fn reader_reports_failed_length_read_as_error() {
    let (reader, _) = FrameReader::new();
    let (reader, action) = reader.step(ReadEvent::Failed);
    assert_eq!(reader, FrameReader::Header);
    assert!(matches!(action, ReaderAction::Fail(FrameError::HeaderUnreadable)));
}

#[test]
fn reader_refuses_stream_finishing_before_body() {
    let (action, _) = read_one(&[3, 0, 0, 0]);
    assert!(matches!(action, ReaderAction::Fail(FrameError::BodyUnreadable)));
}

#[test]
fn reader_refuses_oversized_length() {
    let (action, consumed) = read_one(&[1, 0, 32, 0, 1, 2, 3]);
    assert!(matches!(action, ReaderAction::Fail(FrameError::IncomingTooLarge(2097153))));
    assert_eq!(consumed, 4);
}

#[test]
fn reader_reports_truncated_body() {
    let (action, _) = read_one(&[5, 0, 0, 0, 1, 2]);
    assert!(matches!(action, ReaderAction::Fail(FrameError::BodyUnreadable)));
}

#[test]
fn written_frames_are_read_back_in_order() {
    // Twenty frames of a video stream, as a peer sends them.
    let mut stream = Vec::new();
    for i in 0..20u8 {
        stream.extend(encode_frame(&vec![i; 128]).unwrap());
    }
    // the peer finishes the stream after the last frame
    let mut pos = 0;
    for i in 0..20u8 {
        let (action, consumed) = read_one(&stream[pos..]);
        match action {
            ReaderAction::Message(body) => assert_eq!(body, vec![i; 128]),
            _ => panic!("frame {} was not read back", i),
        }
        pos += consumed;
    }
    let (action, _) = read_one(&stream[pos..]);
    assert!(matches!(action, ReaderAction::End));
}
