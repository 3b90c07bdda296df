//! The messages of the protocol: the record that travels on the wire, with
//! every field but its type tag optional, and the closed set of messages
//! that the rest of the library works with.

use crate::text::{opt_view, str_eq};
use vstd::prelude::*;

verus! {

/// One message as it is written on the wire: a type tag and the optional
/// fields of the schema.
#[derive(Debug, Clone, PartialEq, Eq)]
pub struct OsdMessage {
    pub message_type: String,
    pub value: Option<i32>,
    pub max_value: Option<i32>,
    pub text: Option<String>,
    pub muted: Option<bool>,
    pub device_name: Option<String>,
}

/// The mathematical value of an `OsdMessage`.
pub struct OsdMessageView {
    pub message_type: Seq<char>,
    pub value: Option<i32>,
    pub max_value: Option<i32>,
    pub text: Option<Seq<char>>,
    pub muted: Option<bool>,
    pub device_name: Option<Seq<char>>,
}

impl View for OsdMessage {
    type V = OsdMessageView;

    open spec fn view(&self) -> OsdMessageView {
        OsdMessageView {
            message_type: self.message_type@,
            value: self.value,
            max_value: self.max_value,
            text: opt_view(self.text),
            muted: self.muted,
            device_name: opt_view(self.device_name),
        }
    }
}

/// A message of the protocol.
#[derive(Debug, Clone, PartialEq, Eq)]
pub enum Message {
    /// A volume level out of a maximum, with the mute state and, if known,
    /// the name of the device.
    Volume { value: i32, max: i32, muted: bool, device: Option<String> },
    /// A brightness level out of a maximum.
    Brightness { value: i32, max: i32 },
    /// A line of text.
    Text { text: String },
    /// Wire text that the producer supplies itself and that is passed
    /// through as it is.
    Raw { json: String },
}

/// The mathematical value of a `Message`.
pub enum MessageView {
    Volume { value: i32, max: i32, muted: bool, device: Option<Seq<char>> },
    Brightness { value: i32, max: i32 },
    Text { text: Seq<char> },
    Raw { json: Seq<char> },
}

impl View for Message {
    type V = MessageView;

    open spec fn view(&self) -> MessageView {
        match self {
            Message::Volume { value, max, muted, device } => MessageView::Volume {
                value: *value,
                max: *max,
                muted: *muted,
                device: opt_view(*device),
            },
            Message::Brightness { value, max } => MessageView::Brightness {
                value: *value,
                max: *max,
            },
            Message::Text { text } => MessageView::Text { text: text@ },
            Message::Raw { json } => MessageView::Raw { json: json@ },
        }
    }
}

/// Why a wire record is not a message.
#[derive(Debug, Clone, Copy, PartialEq, Eq, Structural)]
pub enum MessageError {
    /// The type tag is known, but a field that it requires is absent.
    Malformed,
    /// The type tag is none of `volume`, `brightness` and `text`.
    UnknownKind,
}

/// The message that a wire record stands for.
///
/// A `volume` or `brightness` record needs both `value` and `max_value`, a
/// `text` record needs `text`; a record without them is malformed. An absent
/// `muted` counts as not muted. Fields that the type does not use are
/// ignored. Any other type tag is an unknown kind.
pub open spec fn classify(w: OsdMessageView) -> Result<MessageView, MessageError> {
    if w.message_type == "volume"@ {
        match (w.value, w.max_value) {
            (Some(value), Some(max)) => Ok(
                MessageView::Volume {
                    value,
                    max,
                    muted: match w.muted {
                        Some(m) => m,
                        None => false,
                    },
                    device: w.device_name,
                },
            ),
            _ => Err(MessageError::Malformed),
        }
    } else if w.message_type == "brightness"@ {
        match (w.value, w.max_value) {
            (Some(value), Some(max)) => Ok(MessageView::Brightness { value, max }),
            _ => Err(MessageError::Malformed),
        }
    } else if w.message_type == "text"@ {
        match w.text {
            Some(text) => Ok(MessageView::Text { text }),
            None => Err(MessageError::Malformed),
        }
    } else {
        Err(MessageError::UnknownKind)
    }
}

/// The view of a classification result.
pub open spec fn classified_view(r: Result<Message, MessageError>) -> Result<
    MessageView,
    MessageError,
> {
    match r {
        Ok(m) => Ok(m@),
        Err(e) => Err(e),
    }
}

impl OsdMessage {
    /// Turns the wire record into the message that it stands for, or says
    /// why it is none.
    pub fn into_message(self) -> (r: Result<Message, MessageError>)
        ensures
            classified_view(r) == classify(self@),
    {
        if str_eq(self.message_type.as_str(), "volume") {
            match (self.value, self.max_value) {
                (Some(value), Some(max)) => Ok(
                    Message::Volume {
                        value,
                        max,
                        muted: match self.muted {
                            Some(m) => m,
                            None => false,
                        },
                        device: self.device_name,
                    },
                ),
                _ => Err(MessageError::Malformed),
            }
        } else if str_eq(self.message_type.as_str(), "brightness") {
            match (self.value, self.max_value) {
                (Some(value), Some(max)) => Ok(Message::Brightness { value, max }),
                _ => Err(MessageError::Malformed),
            }
        } else if str_eq(self.message_type.as_str(), "text") {
            match self.text {
                Some(text) => Ok(Message::Text { text }),
                None => Err(MessageError::Malformed),
            }
        } else {
            Err(MessageError::UnknownKind)
        }
    }
}

} // verus!
