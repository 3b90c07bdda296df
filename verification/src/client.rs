//! The producer side: from a command to its message, from a message to the
//! frame on the channel, and the retry policy of a delivery.
//!
//! The library opens nothing and writes nothing. A `Delivery` says what to
//! do next, the caller does it and reports how it went.

use crate::frame::{delimiter_free, frame_bytes, DELIMITER};
use crate::json::is_json;
use crate::message::{Message, MessageView};
use crate::payload::{lemma_payload_delimiter_free, payload_of};
use crate::wire::{encode, encoded, EncodeError};
use vstd::prelude::*;

verus! {

/// Where the channel lives in the file system.
pub const PIPE_PATH: &'static str = "/tmp/wayland-osd.pipe";

/// How often a delivery tries to open the channel before it gives up.
pub const MAX_ATTEMPTS: u32 = 5;

/// Milliseconds between two attempts to open the channel.
pub const RETRY_DELAY_MS: u64 = 50;

/// Milliseconds that a producer rests after a write, so that many producers
/// in a row do not flood the channel.
pub const SETTLE_DELAY_MS: u64 = 5;

/// What a producer is asked to show.
#[derive(Debug, Clone, PartialEq, Eq)]
pub enum Command {
    /// Send the given wire text as it is.
    Json { message: String },
    /// Show a volume level.
    Audio { volume: i32, max_volume: i32, mute: bool },
    /// Show a brightness level.
    Brightness { level: i32, max_level: i32 },
    /// Show a line of text.
    Text { message: String },
}

/// The mathematical value of a `Command`.
pub enum CommandView {
    Json { message: Seq<char> },
    Audio { volume: i32, max_volume: i32, mute: bool },
    Brightness { level: i32, max_level: i32 },
    Text { message: Seq<char> },
}

impl View for Command {
    type V = CommandView;

    open spec fn view(&self) -> CommandView {
        match self {
            Command::Json { message } => CommandView::Json { message: message@ },
            Command::Audio { volume, max_volume, mute } => CommandView::Audio {
                volume: *volume,
                max_volume: *max_volume,
                mute: *mute,
            },
            Command::Brightness { level, max_level } => CommandView::Brightness {
                level: *level,
                max_level: *max_level,
            },
            Command::Text { message } => CommandView::Text { message: message@ },
        }
    }
}

/// The one message that a command stands for.
pub open spec fn message_of(c: CommandView) -> MessageView {
    match c {
        CommandView::Json { message } => MessageView::Raw { json: message },
        CommandView::Audio { volume, max_volume, mute } => MessageView::Volume {
            value: volume,
            max: max_volume,
            muted: mute,
            device: None,
        },
        CommandView::Brightness { level, max_level } => MessageView::Brightness {
            value: level,
            max: max_level,
        },
        CommandView::Text { message } => MessageView::Text { text: message },
    }
}

impl Command {
    /// Turns the command into the message that it stands for.
    pub fn into_message(self) -> (msg: Message)
        ensures
            msg@ == message_of(self@),
    {
        match self {
            Command::Json { message } => Message::Raw { json: message },
            Command::Audio { volume, max_volume, mute } => Message::Volume {
                value: volume,
                max: max_volume,
                muted: mute,
                device: None,
            },
            Command::Brightness { level, max_level } => Message::Brightness {
                value: level,
                max: max_level,
            },
            Command::Text { message } => Message::Text { text: message },
        }
    }
}

/// Why a message did not reach the channel.
#[derive(Debug, Clone, Copy, PartialEq, Eq, Structural)]
pub enum SendError {
    /// The message has no wire text.
    Invalid(EncodeError),
    /// The channel could not be opened within `MAX_ATTEMPTS` attempts, or
    /// the write failed.
    DeliveryFailed,
}

/// How far a delivery has come.
#[derive(Debug, Clone, Copy, PartialEq, Eq, Structural)]
pub enum SendState {
    /// The channel is yet to be opened; `failures` attempts have failed.
    Opening { failures: u32 },
    /// The channel is open and the frame is yet to be written.
    Writing,
    /// The frame was written.
    Delivered,
    /// The delivery was given up.
    Failed,
}

/// What the caller reports of the step it was asked to do.
#[derive(Debug, Clone, Copy, PartialEq, Eq, Structural)]
pub enum SendEvent {
    /// The channel could not be opened.
    OpenFailed,
    /// The channel is open for writing.
    Opened,
    /// The frame was written and flushed.
    Written,
    /// The write or the flush failed.
    WriteFailed,
}

/// What the caller is asked to do next.
#[derive(Debug, Clone, Copy, PartialEq, Eq, Structural)]
pub enum SendStep {
    /// Wait `delay_ms` milliseconds, then try to open the channel.
    Open { delay_ms: u64 },
    /// Write the whole frame in one call, then flush.
    Write,
    /// Rest `delay_ms` milliseconds; the message is delivered.
    Finish { delay_ms: u64 },
    /// Report that the delivery failed.
    GiveUp,
}

/// The state that follows `s` on `e`.
///
/// A failed open is tried again until `MAX_ATTEMPTS` attempts have failed;
/// an open channel is written to once; a failed write is not tried again.
/// A finished delivery stays as it is, and a report that answers no step
/// in progress fails the delivery.
pub open spec fn next_state(s: SendState, e: SendEvent) -> SendState {
    match (s, e) {
        (SendState::Opening { failures }, SendEvent::OpenFailed) => if failures + 1
            < MAX_ATTEMPTS {
            SendState::Opening { failures: (failures + 1) as u32 }
        } else {
            SendState::Failed
        },
        (SendState::Opening { failures }, SendEvent::Opened) => SendState::Writing,
        (SendState::Writing, SendEvent::Written) => SendState::Delivered,
        (SendState::Delivered, _) => SendState::Delivered,
        _ => SendState::Failed,
    }
}

/// What a delivery asks for when it enters state `s`.
pub open spec fn step_of(s: SendState) -> SendStep {
    match s {
        SendState::Opening { failures } => SendStep::Open {
            delay_ms: if failures == 0 {
                0
            } else {
                RETRY_DELAY_MS
            },
        },
        SendState::Writing => SendStep::Write,
        SendState::Delivered => SendStep::Finish { delay_ms: SETTLE_DELAY_MS },
        SendState::Failed => SendStep::GiveUp,
    }
}

/// The state of a delivery after `events`, in order, from state `s`.
pub open spec fn state_after(s: SendState, events: Seq<SendEvent>) -> SendState
    decreases events.len(),
{
    if events.len() == 0 {
        s
    } else {
        next_state(state_after(s, events.drop_last()), events.last())
    }
}

/// How many times a delivery that starts in state `s` asks to open the
/// channel again in answer to `events`.
pub open spec fn retries(s: SendState, events: Seq<SendEvent>) -> nat
    decreases events.len(),
{
    if events.len() == 0 {
        0
    } else if step_of(state_after(s, events)) is Open {
        retries(s, events.drop_last()) + 1
    } else {
        retries(s, events.drop_last())
    }
}

/// The state in which every delivery starts.
pub open spec fn start() -> SendState {
    SendState::Opening { failures: 0 }
}

/// Bounded retry: whatever is reported to a delivery, it asks to open the
/// channel at most `MAX_ATTEMPTS` times, the first attempt counted; while it
/// is still opening, the attempts that failed are the retries it asked for.
pub proof fn lemma_retries_bounded(events: Seq<SendEvent>)
    ensures
        1 + retries(start(), events) <= MAX_ATTEMPTS,
        state_after(start(), events) matches SendState::Opening { failures } ==> failures
            == retries(start(), events),
    decreases events.len(),
{
    if events.len() > 0 {
        lemma_retries_bounded(events.drop_last());
    }
}

/// A delivery gives up exactly when the open has failed `MAX_ATTEMPTS`
/// times in a row: after fewer failures it is still opening, and asks for
/// the next attempt `RETRY_DELAY_MS` later.
pub proof fn lemma_open_failures(n: nat)
    ensures
        state_after(start(), Seq::new(n, |i: int| SendEvent::OpenFailed)) == if n == 0 {
            start()
        } else if n < MAX_ATTEMPTS {
            SendState::Opening { failures: n as u32 }
        } else {
            SendState::Failed
        },
    decreases n,
{
    let events = Seq::new(n, |i: int| SendEvent::OpenFailed);
    if n > 0 {
        let fewer = Seq::new((n - 1) as nat, |i: int| SendEvent::OpenFailed);
        assert(events.drop_last() =~= fewer);
        lemma_open_failures((n - 1) as nat);
    }
}

/// One message on its way to the channel.
#[derive(Debug, Clone, PartialEq, Eq)]
pub struct Delivery {
    frame: Vec<u8>,
    state: SendState,
}

impl Delivery {
    /// The bytes to write: the payload and its delimiter.
    pub closed spec fn frame_view(&self) -> Seq<u8> {
        self.frame@
    }

    /// How far the delivery has come.
    pub closed spec fn state_view(&self) -> SendState {
        self.state
    }

    /// The bytes to write, in one call.
    pub fn frame(&self) -> (bytes: &Vec<u8>)
        ensures
            bytes@ == self.frame_view(),
    {
        &self.frame
    }

    /// How far the delivery has come.
    pub fn state(&self) -> (state: SendState)
        ensures
            state == self.state_view(),
    {
        self.state
    }

    /// What to do now.
    pub fn step(&self) -> (step: SendStep)
        ensures
            step == step_of(self.state_view()),
    {
        match self.state {
            SendState::Opening { failures } => SendStep::Open {
                delay_ms: if failures == 0 {
                    0
                } else {
                    RETRY_DELAY_MS
                },
            },
            SendState::Writing => SendStep::Write,
            SendState::Delivered => SendStep::Finish { delay_ms: SETTLE_DELAY_MS },
            SendState::Failed => SendStep::GiveUp,
        }
    }

    /// How the delivery ended, once it has: `None` while it is under way.
    pub fn outcome(&self) -> (r: Option<Result<(), SendError>>)
        ensures
            r == match self.state_view() {
                SendState::Delivered => Some(Ok::<(), SendError>(())),
                SendState::Failed => Some(Err::<(), SendError>(SendError::DeliveryFailed)),
                _ => None,
            },
    {
        match self.state {
            SendState::Delivered => Some(Ok(())),
            SendState::Failed => Some(Err(SendError::DeliveryFailed)),
            _ => None,
        }
    }

    /// Takes in what became of the last step and says what to do next.
    pub fn advance(&mut self, event: SendEvent) -> (step: SendStep)
        ensures
            final(self).state_view() == next_state(old(self).state_view(), event),
            final(self).frame_view() == old(self).frame_view(),
            step == step_of(final(self).state_view()),
    {
        let next = match (self.state, event) {
            (SendState::Opening { failures }, SendEvent::OpenFailed) => {
                if failures < MAX_ATTEMPTS - 1 {
                    SendState::Opening { failures: failures + 1 }
                } else {
                    SendState::Failed
                }
            },
            (SendState::Opening { .. }, SendEvent::Opened) => SendState::Writing,
            (SendState::Writing, SendEvent::Written) => SendState::Delivered,
            (SendState::Delivered, _) => SendState::Delivered,
            _ => SendState::Failed,
        };
        self.state = next;
        self.step()
    }
}

/// A producer of messages.
#[derive(Debug, Clone, Copy)]
pub struct OsdClient {}

impl OsdClient {
    /// A producer. It holds nothing and cannot fail to be made.
    pub fn new() -> (client: Result<OsdClient, SendError>)
        ensures
            client is Ok,
    {
        Ok(OsdClient {  })
    }

    /// Starts the delivery of one wire text: the frame is the bytes of
    /// `message` and one delimiter after them, and the first step is to
    /// open the channel at once.
    pub fn send_message(&self, message: &str) -> (delivery: Delivery)
        ensures
            delivery.frame_view() == frame_bytes(payload_of(message@)),
            delivery.state_view() == (SendState::Opening { failures: 0 }),
    {
        let mut frame: Vec<u8> = Vec::new();
        frame.extend_from_slice(message.as_bytes());
        frame.push(DELIMITER);
        Delivery { frame, state: SendState::Opening { failures: 0 } }
    }

    /// Starts the delivery of a message.
    ///
    /// Raw text that is not JSON is refused. Every other message is
    /// delivered as the frame of its wire text, and that payload is not
    /// empty and holds no delimiter: a decoder reads it back as one frame
    /// if it is no longer than `MAX_MESSAGE_SIZE`.
    pub fn send(&self, msg: &Message) -> (r: Result<Delivery, SendError>)
        ensures
            match encoded(msg@, msg@ matches MessageView::Raw { json } && is_json(json)) {
                Ok(text) => {
                    &&& r is Ok
                    &&& r->Ok_0.frame_view() == frame_bytes(payload_of(text))
                    &&& r->Ok_0.state_view() == (SendState::Opening { failures: 0 })
                    &&& payload_of(text).len() > 0
                    &&& delimiter_free(payload_of(text))
                },
                Err(e) => r == Err::<Delivery, SendError>(SendError::Invalid(e)),
            },
    {
        match encode(msg) {
            Ok(text) => {
                proof {
                    lemma_payload_delimiter_free(text@);
                }
                Ok(self.send_message(text.as_str()))
            },
            Err(e) => Err(SendError::Invalid(e)),
        }
    }
}

} // verus!
