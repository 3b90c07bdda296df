//! The wire format: the structured text that stands for a message, and the
//! text that a received frame holds.
//!
//! A message is written as one JSON object without white space, its keys in
//! alphabetical order, as `serde_json` writes an object by default.

use crate::json::{is_json, json_parses, json_quote, quoted};
use crate::message::{Message, MessageError, MessageView};
use crate::payload::{lemma_wire_text_nul_free, nul_free};
use crate::text::utf8_text;
use vstd::prelude::*;
use vstd::string::StringExecFns;
use vstd::utf8::{decode_utf8, valid_utf8};

verus! {

/// Why a message cannot be written on the wire.
#[derive(Debug, Clone, Copy, PartialEq, Eq, Structural)]
pub enum EncodeError {
    /// The text of a raw message is not JSON.
    InvalidJson,
}

/// The decimal digit for `d`.
pub open spec fn digit(d: int) -> char {
    seq!['0', '1', '2', '3', '4', '5', '6', '7', '8', '9'][d]
}

/// The decimal digits of `n`, without leading zeros.
pub open spec fn digits(n: nat) -> Seq<char>
    decreases n,
{
    if n < 10 {
        seq![digit(n as int)]
    } else {
        digits(n / 10).push(digit((n % 10) as int))
    }
}

/// The decimal text of `n`, with a minus sign if it is negative.
pub open spec fn decimal(n: int) -> Seq<char> {
    if n < 0 {
        seq!['-'] + digits((-n) as nat)
    } else {
        digits(n as nat)
    }
}

/// The text of a boolean.
pub open spec fn boolean(b: bool) -> Seq<char> {
    if b {
        "true"@
    } else {
        "false"@
    }
}

/// The wire text of a message.
///
/// A raw message is its own text. The others are one object each:
/// `{"max_value":M,"muted":B,"type":"volume","value":V}`, with
/// `"device_name":D,` in front of `"max_value"` where the device is known,
/// `{"max_value":M,"type":"brightness","value":V}`, and
/// `{"text":T,"type":"text"}`.
pub open spec fn wire_text(m: MessageView) -> Seq<char> {
    match m {
        MessageView::Volume { value, max, muted, device } => "{"@ + (match device {
            Some(name) => "\"device_name\":"@ + quoted(name) + ","@,
            None => Seq::empty(),
        }) + "\"max_value\":"@ + decimal(max as int) + ",\"muted\":"@ + boolean(muted)
            + ",\"type\":\"volume\",\"value\":"@ + decimal(value as int) + "}"@,
        MessageView::Brightness { value, max } => "{\"max_value\":"@ + decimal(max as int)
            + ",\"type\":\"brightness\",\"value\":"@ + decimal(value as int) + "}"@,
        MessageView::Text { text } => "{\"text\":"@ + quoted(text) + ",\"type\":\"text\"}"@,
        MessageView::Raw { json } => json,
    }
}

/// What `encode` gives for a message, where `well_formed` says whether the
/// text of a raw message is JSON: raw text that is not JSON is refused,
/// every other message has its wire text.
pub open spec fn encoded(m: MessageView, well_formed: bool) -> Result<Seq<char>, EncodeError> {
    if m is Raw && !well_formed {
        Err(EncodeError::InvalidJson)
    } else {
        Ok(wire_text(m))
    }
}

/// The view of an encoding result.
pub open spec fn encoded_view(r: Result<String, EncodeError>) -> Result<Seq<char>, EncodeError> {
    match r {
        Ok(text) => Ok(text@),
        Err(e) => Err(e),
    }
}

/// The one-character text of a decimal digit.
fn digit_str(d: u32) -> (s: &'static str)
    requires
        d < 10,
    ensures
        s@ == seq![digit(d as int)],
{
    proof {
        reveal_strlit("0");
        reveal_strlit("1");
        reveal_strlit("2");
        reveal_strlit("3");
        reveal_strlit("4");
        reveal_strlit("5");
        reveal_strlit("6");
        reveal_strlit("7");
        reveal_strlit("8");
        reveal_strlit("9");
    }
    let s = if d == 0 {
        "0"
    } else if d == 1 {
        "1"
    } else if d == 2 {
        "2"
    } else if d == 3 {
        "3"
    } else if d == 4 {
        "4"
    } else if d == 5 {
        "5"
    } else if d == 6 {
        "6"
    } else if d == 7 {
        "7"
    } else if d == 8 {
        "8"
    } else {
        "9"
    };
    assert(s@ =~= seq![digit(d as int)]);
    s
}

/// Appends the decimal digits of `n` to `out`.
fn push_digits(out: &mut String, n: u32)
    ensures
        final(out)@ == old(out)@ + digits(n as nat),
    decreases n,
{
    if n >= 10 {
        push_digits(out, n / 10);
    }
    out.append(digit_str(n % 10));
    proof {
        if n >= 10 {
            assert(old(out)@ + digits((n / 10) as nat) + seq![digit((n % 10) as int)] =~= old(
                out,
            )@ + digits((n / 10) as nat).push(digit((n % 10) as int)));
        }
    }
}

/// Appends the decimal text of `n` to `out`.
pub fn push_decimal(out: &mut String, n: i32)
    ensures
        final(out)@ == old(out)@ + decimal(n as int),
{
    if n < 0 {
        out.append("-");
        proof {
            reveal_strlit("-");
            assert("-"@ =~= seq!['-']);
        }
        let magnitude: u32 = if n == i32::MIN {
            2147483648u32
        } else {
            (-n) as u32
        };
        push_digits(out, magnitude);
        assert(out@ =~= old(out)@ + decimal(n as int));
    } else {
        push_digits(out, n as u32);
    }
}

/// The wire text of a raw message whose text `json` was judged: the text
/// itself if it is well formed, a refusal if it is not.
pub fn checked_raw(json: &str, well_formed: bool) -> (r: Result<String, EncodeError>)
    ensures
        encoded_view(r) == encoded(MessageView::Raw { json: json@ }, well_formed),
{
    if well_formed {
        Ok(json.to_owned())
    } else {
        Err(EncodeError::InvalidJson)
    }
}

/// Writes a message as wire text.
///
/// Every volume, brightness and text message has a wire text. A raw message
/// is passed through as it is, after a check that it is JSON. No text that
/// comes out is empty or holds a NUL character.
pub fn encode(msg: &Message) -> (r: Result<String, EncodeError>)
    ensures
        encoded_view(r) == encoded(
            msg@,
            msg@ matches MessageView::Raw { json } && is_json(json),
        ),
        r matches Ok(text) ==> nul_free(text@) && text@.len() > 0,
{
    proof {
        if !(msg@ is Raw) {
            lemma_wire_text_nul_free(msg@);
        }
    }
    match msg {
        Message::Volume { value, max, muted, device } => {
            let mut out = String::from_str("{");
            match device {
                Some(name) => {
                    out.append("\"device_name\":");
                    let literal = json_quote(name.as_str());
                    out.append(literal.as_str());
                    out.append(",");
                },
                None => {},
            }
            assert(out@ =~= "{"@ + (match msg@->Volume_device {
                Some(name) => "\"device_name\":"@ + quoted(name) + ","@,
                None => Seq::empty(),
            }));
            out.append("\"max_value\":");
            push_decimal(&mut out, *max);
            out.append(",\"muted\":");
            if *muted {
                out.append("true");
            } else {
                out.append("false");
            }
            out.append(",\"type\":\"volume\",\"value\":");
            push_decimal(&mut out, *value);
            out.append("}");
            Ok(out)
        },
        Message::Brightness { value, max } => {
            let mut out = String::from_str("{\"max_value\":");
            push_decimal(&mut out, *max);
            out.append(",\"type\":\"brightness\",\"value\":");
            push_decimal(&mut out, *value);
            out.append("}");
            Ok(out)
        },
        Message::Text { text } => {
            let mut out = String::from_str("{\"text\":");
            let literal = json_quote(text.as_str());
            out.append(literal.as_str());
            out.append(",\"type\":\"text\"}");
            Ok(out)
        },
        Message::Raw { json } => checked_raw(json.as_str(), json_parses(json.as_str())),
    }
}

/// The text that a frame holds: its bytes read as UTF-8. A frame that is
/// not UTF-8 is malformed.
pub open spec fn text_of(frame: Seq<u8>) -> Result<Seq<char>, MessageError> {
    if valid_utf8(frame) {
        Ok(decode_utf8(frame))
    } else {
        Err(MessageError::Malformed)
    }
}

/// The view of a decoded text.
pub open spec fn text_view(r: Result<String, MessageError>) -> Result<Seq<char>, MessageError> {
    match r {
        Ok(text) => Ok(text@),
        Err(e) => Err(e),
    }
}

/// Reads the bytes of a frame as text.
pub fn frame_text(frame: Vec<u8>) -> (r: Result<String, MessageError>)
    ensures
        text_view(r) == text_of(frame@),
{
    match utf8_text(frame) {
        Some(text) => Ok(text),
        None => Err(MessageError::Malformed),
    }
}

} // verus!
