use wayland_osd::client::{Command, OsdClient};
use wayland_osd::display::{handle_message, Content, DisplayState, TimerToken};
use wayland_osd::frame::{FrameDecoder, FrameEvent};
use wayland_osd::message::{MessageError, OsdMessage};
use wayland_osd::wire::frame_text;

fn integer(value: &serde_json::Value) -> Option<i32> {
    value.as_i64().and_then(|n| i32::try_from(n).ok())
}

fn record(text: &str) -> Option<OsdMessage> {
    let value: serde_json::Value = serde_json::from_str(text).ok()?;
    let object = value.as_object()?;
    Some(OsdMessage {
        message_type: object.get("type")?.as_str()?.to_string(),
        value: object.get("value").and_then(integer),
        max_value: object.get("max_value").and_then(integer),
        text: object.get("text").and_then(|v| v.as_str()).map(str::to_string),
        muted: object.get("muted").and_then(|v| v.as_bool()),
        device_name: object.get("device_name").and_then(|v| v.as_str()).map(str::to_string),
    })
}

struct Presenter {
    decoder: FrameDecoder,
    display: DisplayState,
    next_timer: u64,
    dropped: Vec<TimerToken>,
    rejected: Vec<MessageError>,
    undecodable: usize,
    oversized: usize,
}

impl Presenter {
    fn new() -> Presenter {
        Presenter {
            decoder: FrameDecoder::new(),
            display: DisplayState::new(),
            next_timer: 1,
            dropped: Vec::new(),
            rejected: Vec::new(),
            undecodable: 0,
            oversized: 0,
        }
    }

    fn read(&mut self, chunk: &[u8]) {
        for event in self.decoder.feed(chunk) {
            let frame = match event {
                FrameEvent::Frame(frame) => frame,
                FrameEvent::Oversized => {
                    self.oversized += 1;
                    continue;
                }
            };
            let msg = match frame_text(frame).ok().and_then(|text| record(&text)) {
                Some(msg) => msg,
                None => {
                    self.undecodable += 1;
                    continue;
                }
            };
            match handle_message(&mut self.display, msg) {
                Ok(shown) => {
                    self.dropped.extend(shown.cancel);
                    let token = TimerToken(self.next_timer);
                    self.next_timer += 1;
                    self.dropped.extend(self.display.timer_armed(token));
                }
                Err(e) => self.rejected.push(e),
            }
        }
    }

    fn read_in_pieces(&mut self, stream: &[u8], size: usize) {
        for chunk in stream.chunks(size) {
            self.read(chunk);
        }
    }
}

fn frame_of(command: Command) -> Vec<u8> {
    let client = OsdClient::new().unwrap();
    client.send(&command.into_message()).unwrap().frame().clone()
}

#[test]
fn scenario_over_the_wire() {
    let mut presenter = Presenter::new();
    presenter.read(b"{\"type\":\"volume\",\"value\":45,\"max_value\":100,\"muted\":false}\0");
    assert_eq!(
        presenter.display,
        DisplayState::Visible {
            content: Content::Volume { value: 45, max: 100, muted: false, device: None },
            timer: Some(TimerToken(1)),
        }
    );
    assert_eq!(presenter.dropped, vec![]);

    presenter.read(b"{\"type\":\"text\",\"text\":\"Muted\"}\0");
    assert_eq!(
        presenter.display,
        DisplayState::Visible {
            content: Content::Text { text: "Muted".to_string() },
            timer: Some(TimerToken(2)),
        }
    );
    assert_eq!(presenter.dropped, vec![TimerToken(1)]);

    assert!(presenter.display.timer_fired(TimerToken(2)));
    assert_eq!(presenter.display, DisplayState::Idle);
}

#[test]
fn commands_reach_the_display_in_every_chunk_size() {
    let mut stream = Vec::new();
    stream.extend(frame_of(Command::Audio { volume: 120, max_volume: 150, mute: true }));
    stream.extend(frame_of(Command::Brightness { level: 3, max_level: 15 }));
    stream.extend(frame_of(Command::Text { message: "Caps \"Lock\"\n".to_string() }));
    for size in 1..=stream.len() {
        let mut presenter = Presenter::new();
        presenter.read_in_pieces(&stream, size);
        assert_eq!(
            presenter.display,
            DisplayState::Visible {
                content: Content::Text { text: "Caps \"Lock\"\n".to_string() },
                timer: Some(TimerToken(3)),
            }
        );
        assert_eq!(presenter.dropped, vec![TimerToken(1), TimerToken(2)]);
        assert_eq!(presenter.undecodable, 0);
        assert_eq!(presenter.rejected, vec![]);
    }
}

#[test]
fn messages_are_applied_in_the_order_sent() {
    let mut presenter = Presenter::new();
    let mut seen = Vec::new();
    for level in [1, 2, 3] {
        let frame = frame_of(Command::Brightness { level, max_level: 10 });
        for chunk in frame.chunks(5) {
            presenter.read(chunk);
            if let DisplayState::Visible { content: Content::Brightness { value, .. }, .. } =
                &presenter.display
            {
                if seen.last() != Some(value) {
                    seen.push(*value);
                }
            }
        }
    }
    assert_eq!(seen, vec![1, 2, 3]);
}

#[test]
fn bad_frames_between_good_ones_cost_nothing() {
    let mut stream = Vec::new();
    stream.extend(frame_of(Command::Audio { volume: 10, max_volume: 100, mute: false }));
    stream.extend_from_slice(b"{\"type\":\"volume\",\"value\":\0");
    stream.extend_from_slice(&[0xff, 0xfe, 0]);
    stream.extend_from_slice(b"{\"type\":\"volume\",\"value\":5}\0");
    stream.extend_from_slice(b"{\"type\":\"contrast\",\"value\":5,\"max_value\":9}\0");
    stream.extend(vec![b'x'; 9000]);
    stream.push(0);
    stream.extend(frame_of(Command::Text { message: "after".to_string() }));
    for size in [1usize, 2, 5, 64, 1024, 4096, 100_000] {
        let mut presenter = Presenter::new();
        presenter.read_in_pieces(&stream, size);
        assert_eq!(
            presenter.display,
            DisplayState::Visible {
                content: Content::Text { text: "after".to_string() },
                timer: Some(TimerToken(2)),
            }
        );
        assert_eq!(presenter.dropped, vec![TimerToken(1)]);
        assert_eq!(presenter.undecodable, 2);
        assert_eq!(presenter.rejected, vec![MessageError::Malformed, MessageError::UnknownKind]);
        assert_eq!(presenter.oversized, 1);
    }
}
