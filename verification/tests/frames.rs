use wayland_osd::client::OsdClient;
use wayland_osd::frame::{FrameDecoder, FrameEvent, DELIMITER, MAX_MESSAGE_SIZE};
use wayland_osd::message::Message;

fn feed_all(decoder: &mut FrameDecoder, chunks: &[&[u8]]) -> Vec<FrameEvent> {
    let mut events = Vec::new();
    for chunk in chunks {
        events.extend(decoder.feed(chunk));
    }
    events
}

fn in_pieces(bytes: &[u8], size: usize) -> Vec<&[u8]> {
    bytes.chunks(size).collect()
}

#[test]
fn constants_of_the_protocol() {
    assert_eq!(MAX_MESSAGE_SIZE, 8192);
    assert_eq!(DELIMITER, 0);
}

#[test]
fn new_decoder_is_idle() {
    let decoder = FrameDecoder::new();
    assert_eq!(decoder.pending_len(), 0);
    assert!(!decoder.is_discarding());
}

#[test]
fn empty_chunk_changes_nothing() {
    let mut decoder = FrameDecoder::new();
    assert_eq!(decoder.feed(b""), vec![]);
    assert_eq!(decoder.feed(b"ab"), vec![]);
    assert_eq!(decoder.feed(b""), vec![]);
    assert_eq!(decoder.pending_len(), 2);
}

#[test]
fn one_frame_in_one_chunk() {
    let mut decoder = FrameDecoder::new();
    let events = decoder.feed(b"hello\0");
    assert_eq!(events, vec![FrameEvent::Frame(b"hello".to_vec())]);
    assert_eq!(decoder.pending_len(), 0);
    assert!(!decoder.is_discarding());
}

#[test]
fn several_frames_in_one_chunk() {
    let mut decoder = FrameDecoder::new();
    let events = decoder.feed(b"one\0two\0three\0fo");
    assert_eq!(
        events,
        vec![
            FrameEvent::Frame(b"one".to_vec()),
            FrameEvent::Frame(b"two".to_vec()),
            FrameEvent::Frame(b"three".to_vec()),
        ]
    );
    assert_eq!(decoder.pending_len(), 2);
    assert_eq!(decoder.feed(b"ur\0"), vec![FrameEvent::Frame(b"four".to_vec())]);
}

#[test]
fn frame_split_over_chunks() {
    let mut decoder = FrameDecoder::new();
    assert_eq!(decoder.feed(b"he"), vec![]);
    assert_eq!(decoder.pending_len(), 2);
    assert_eq!(decoder.feed(b"llo"), vec![]);
    assert_eq!(decoder.feed(b"\0wor"), vec![FrameEvent::Frame(b"hello".to_vec())]);
    assert_eq!(decoder.feed(b"ld\0"), vec![FrameEvent::Frame(b"world".to_vec())]);
    assert_eq!(decoder.pending_len(), 0);
}

#[test]
fn empty_frames_are_skipped() {
    let mut decoder = FrameDecoder::new();
    assert_eq!(decoder.feed(b"\0\0\0"), vec![]);
    assert_eq!(decoder.feed(b"\0a\0\0b\0"), vec![
        FrameEvent::Frame(b"a".to_vec()),
        FrameEvent::Frame(b"b".to_vec()),
    ]);
}

#[test]
fn frame_of_the_largest_size_passes() {
    let mut decoder = FrameDecoder::new();
    let mut bytes = vec![b'x'; MAX_MESSAGE_SIZE];
    bytes.push(0);
    assert_eq!(decoder.feed(&bytes), vec![FrameEvent::Frame(vec![b'x'; MAX_MESSAGE_SIZE])]);
    assert_eq!(decoder.pending_len(), 0);
}

#[test]
fn frame_one_byte_too_large_is_dropped() {
    let mut decoder = FrameDecoder::new();
    let mut bytes = vec![b'x'; MAX_MESSAGE_SIZE + 1];
    bytes.push(0);
    assert_eq!(decoder.feed(&bytes), vec![FrameEvent::Oversized]);
    assert_eq!(decoder.pending_len(), 0);
    assert!(!decoder.is_discarding());
}

#[test]
fn pending_never_exceeds_the_bound() {
    let mut decoder = FrameDecoder::new();
    let chunk = vec![b'y'; 1024];
    for _ in 0..8 {
        assert_eq!(decoder.feed(&chunk), vec![]);
    }
    assert_eq!(decoder.pending_len(), MAX_MESSAGE_SIZE);
    assert_eq!(decoder.feed(b"z"), vec![FrameEvent::Oversized]);
    assert_eq!(decoder.pending_len(), 0);
    assert!(decoder.is_discarding());
    assert_eq!(decoder.feed(&chunk), vec![]);
    assert_eq!(decoder.pending_len(), 0);
    assert!(decoder.is_discarding());
}

#[test]
fn oversized_run_is_reported_once() {
    let mut decoder = FrameDecoder::new();
    let chunk = vec![b'y'; 5000];
    let mut events = Vec::new();
    for _ in 0..5 {
        events.extend(decoder.feed(&chunk));
    }
    events.extend(decoder.feed(b"\0"));
    assert_eq!(events, vec![FrameEvent::Oversized]);
    assert!(!decoder.is_discarding());
}

#[test]
fn tail_of_an_oversized_run_is_no_frame() {
    let mut decoder = FrameDecoder::new();
    let run = vec![b'y'; 10_000];
    let mut events = Vec::new();
    for chunk in in_pieces(&run, 1024) {
        events.extend(decoder.feed(chunk));
    }
    events.extend(decoder.feed(b"{\"type\":\"text\",\"text\":\"tail\"}\0"));
    assert_eq!(events, vec![FrameEvent::Oversized]);
}

#[test]
fn frame_after_an_oversized_run_is_decoded() {
    let mut stream = vec![b'q'; MAX_MESSAGE_SIZE + 100];
    stream.push(0);
    stream.extend_from_slice(b"next\0");
    for size in [1usize, 2, 3, 7, 1000, 1024, 4096, 8192, 8193, 9000, 20_000] {
        let mut decoder = FrameDecoder::new();
        let events = feed_all(&mut decoder, &in_pieces(&stream, size));
        assert_eq!(events, vec![FrameEvent::Oversized, FrameEvent::Frame(b"next".to_vec())]);
        assert_eq!(decoder.pending_len(), 0);
        assert!(!decoder.is_discarding());
    }
}

#[test]
fn every_chunking_gives_the_same_frames() {
    let stream = b"alpha\0\0beta\0gamma-delta\0rest";
    let mut whole = FrameDecoder::new();
    let expected = whole.feed(stream);
    assert_eq!(expected.len(), 3);
    for first in 0..=stream.len() {
        for second in first..=stream.len() {
            let mut decoder = FrameDecoder::new();
            let chunks: [&[u8]; 3] = [&stream[..first], &stream[first..second], &stream[second..]];
            assert_eq!(feed_all(&mut decoder, &chunks), expected);
            assert_eq!(decoder.pending_len(), whole.pending_len());
        }
    }
}

#[test]
fn round_trip_of_an_encoded_message_in_every_chunk_size() {
    let client = OsdClient::new().unwrap();
    let msg = Message::Volume { value: 45, max: 100, muted: false, device: None };
    let delivery = client.send(&msg).unwrap();
    let frame = delivery.frame().clone();
    let payload = b"{\"max_value\":100,\"muted\":false,\"type\":\"volume\",\"value\":45}".to_vec();
    assert_eq!(&frame[..frame.len() - 1], &payload[..]);
    assert_eq!(frame[frame.len() - 1], 0);
    for size in 1..=frame.len() {
        let mut decoder = FrameDecoder::new();
        let events = feed_all(&mut decoder, &in_pieces(&frame, size));
        assert_eq!(events, vec![FrameEvent::Frame(payload.clone())]);
        assert_eq!(decoder.pending_len(), 0);
    }
}

#[test]
fn frames_keep_their_order() {
    let mut stream = Vec::new();
    stream.extend_from_slice(b"M1\0");
    stream.extend_from_slice(b"M2\0");
    stream.extend_from_slice(b"M3\0");
    for size in 1..=stream.len() {
        let mut decoder = FrameDecoder::new();
        let events = feed_all(&mut decoder, &in_pieces(&stream, size));
        assert_eq!(
            events,
            vec![
                FrameEvent::Frame(b"M1".to_vec()),
                FrameEvent::Frame(b"M2".to_vec()),
                FrameEvent::Frame(b"M3".to_vec()),
            ]
        );
    }
}
