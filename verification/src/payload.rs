//! The bytes that carry a wire text, and why they fit into one frame: a
//! text without a NUL character has no delimiter among its bytes, and the
//! wire text of a message holds no NUL.

use crate::frame::{
    delimiter_free, frame_bytes, idle, Decoded, FrameEventView, DELIMITER, MAX_MESSAGE_SIZE,
};
use crate::json::{escaped, escaped_char, hex_digit, quoted};
use crate::message::{MessageError, MessageView};
use crate::stream::{feed_all, lemma_round_trip};
use crate::wire::{boolean, decimal, digit, digits, text_of, wire_text};
use vstd::prelude::*;
use vstd::utf8::{
    encode_scalar, encode_utf8, encode_utf8_decode_utf8, encode_utf8_valid_utf8,
};

verus! {

/// Whether `text` holds no NUL character.
pub open spec fn nul_free(text: Seq<char>) -> bool {
    forall|i: int| 0 <= i < text.len() ==> text[i] != '\0'
}

/// The bytes that carry `text` on the channel: its UTF-8 encoding.
pub open spec fn payload_of(text: Seq<char>) -> Seq<u8> {
    encode_utf8(text)
}

proof fn lemma_low_byte(c: u32)
    by (bit_vector)
    requires
        0 < c <= 0x7F,
    ensures
        (c & 0x7F) as u8 != 0,
{
}

proof fn lemma_marked_byte(x: u8)
    by (bit_vector)
    ensures
        0x80u8 | x != 0,
        0xC0u8 | x != 0,
        0xE0u8 | x != 0,
        0xF0u8 | x != 0,
{
}

/// No byte of the encoding of a character other than NUL is zero, and the
/// encoding is not empty.
proof fn lemma_scalar_bytes(c: char)
    requires
        c != '\0',
    ensures
        delimiter_free(encode_scalar(c as u32)),
        encode_scalar(c as u32).len() > 0,
{
    let v = c as u32;
    assert(v != 0);
    if v <= 0x7F {
        lemma_low_byte(v);
    }
    lemma_marked_byte(((v >> 6) & 0x1F) as u8);
    lemma_marked_byte(((v >> 12) & 0x0F) as u8);
    lemma_marked_byte(((v >> 18) & 0x7) as u8);
    lemma_marked_byte((v & 0x3F) as u8);
    lemma_marked_byte(((v >> 6) & 0x3F) as u8);
    lemma_marked_byte(((v >> 12) & 0x3F) as u8);
}

/// The bytes of a text without NUL hold no delimiter, and a text that is
/// not empty has bytes.
pub proof fn lemma_payload_delimiter_free(text: Seq<char>)
    requires
        nul_free(text),
    ensures
        delimiter_free(payload_of(text)),
        text.len() > 0 ==> payload_of(text).len() > 0,
    decreases text.len(),
{
    if text.len() > 0 {
        let rest = text.drop_first();
        assert forall|i: int| 0 <= i < rest.len() implies rest[i] != '\0' by {
            assert(rest[i] == text[i + 1]);
        }
        lemma_payload_delimiter_free(rest);
        lemma_scalar_bytes(text[0]);
        let head = encode_scalar(text[0] as u32);
        let tail = encode_utf8(rest);
        assert forall|i: int| 0 <= i < (head + tail).len() implies (head + tail)[i]
            != DELIMITER by {
            if i < head.len() {
                assert((head + tail)[i] == head[i]);
            } else {
                assert((head + tail)[i] == tail[i - head.len()]);
            }
        }
    }
}

/// Two texts without NUL join to one without NUL.
pub proof fn lemma_nul_free_concat(a: Seq<char>, b: Seq<char>)
    requires
        nul_free(a),
        nul_free(b),
    ensures
        nul_free(a + b),
{
    assert forall|i: int| 0 <= i < (a + b).len() implies (a + b)[i] != '\0' by {
        if i < a.len() {
            assert((a + b)[i] == a[i]);
        } else {
            assert((a + b)[i] == b[i - a.len()]);
        }
    }
}

/// Decimal digits hold no NUL.
proof fn lemma_digits_nul_free(n: nat)
    ensures
        nul_free(digits(n)),
        digits(n).len() > 0,
    decreases n,
{
    if n >= 10 {
        lemma_digits_nul_free(n / 10);
        let d = digit((n % 10) as int);
        assert(d != '\0');
        lemma_nul_free_concat(digits(n / 10), seq![d]);
        assert(digits(n / 10).push(d) =~= digits(n / 10) + seq![d]);
    } else {
        assert(digit(n as int) != '\0');
    }
}

/// A decimal text holds no NUL.
pub proof fn lemma_decimal_nul_free(n: int)
    ensures
        nul_free(decimal(n)),
{
    if n < 0 {
        lemma_digits_nul_free((-n) as nat);
        lemma_nul_free_concat(seq!['-'], digits((-n) as nat));
    } else {
        lemma_digits_nul_free(n as nat);
    }
}

/// An escaped text holds no control character, so no NUL: whatever the text
/// is, its string literal is safe to frame.
pub proof fn lemma_quoted_nul_free(text: Seq<char>)
    ensures
        nul_free(escaped(text)),
        nul_free(quoted(text)),
    decreases text.len(),
{
    if text.len() > 0 {
        lemma_quoted_nul_free(text.drop_last());
        let c = text.last();
        let e = escaped_char(c);
        if (c as u32) < 0x20 {
            assert(hex_digit((c as u32) / 16) != '\0');
            assert(hex_digit((c as u32) % 16) != '\0');
        }
        assert(nul_free(e));
        lemma_nul_free_concat(escaped(text.drop_last()), e);
    }
    lemma_nul_free_concat(seq!['"'], escaped(text));
    lemma_nul_free_concat(seq!['"'] + escaped(text), seq!['"']);
}

/// The wire text of a volume, brightness or text message holds no NUL and
/// is not empty; that of a raw message is the raw text itself.
pub proof fn lemma_wire_text_nul_free(m: MessageView)
    requires
        m matches MessageView::Raw { json } ==> nul_free(json) && json.len() > 0,
    ensures
        nul_free(wire_text(m)),
        wire_text(m).len() > 0,
{
    reveal_strlit("{");
    reveal_strlit("}");
    reveal_strlit(",");
    reveal_strlit("true");
    reveal_strlit("false");
    reveal_strlit("\"device_name\":");
    reveal_strlit("\"max_value\":");
    reveal_strlit(",\"muted\":");
    reveal_strlit(",\"type\":\"volume\",\"value\":");
    reveal_strlit("{\"max_value\":");
    reveal_strlit(",\"type\":\"brightness\",\"value\":");
    reveal_strlit("{\"text\":");
    reveal_strlit(",\"type\":\"text\"}");
    match m {
        MessageView::Volume { value, max, muted, device } => {
            lemma_decimal_nul_free(max as int);
            lemma_decimal_nul_free(value as int);
            let lead = match device {
                Some(name) => "\"device_name\":"@ + quoted(name) + ","@,
                None => Seq::empty(),
            };
            match device {
                Some(name) => {
                    lemma_quoted_nul_free(name);
                    lemma_nul_free_concat("\"device_name\":"@, quoted(name));
                    lemma_nul_free_concat("\"device_name\":"@ + quoted(name), ","@);
                },
                None => {},
            }
            let a = "{"@ + lead;
            lemma_nul_free_concat("{"@, lead);
            let b = a + "\"max_value\":"@;
            lemma_nul_free_concat(a, "\"max_value\":"@);
            let c = b + decimal(max as int);
            lemma_nul_free_concat(b, decimal(max as int));
            let d = c + ",\"muted\":"@;
            lemma_nul_free_concat(c, ",\"muted\":"@);
            let e = d + boolean(muted);
            lemma_nul_free_concat(d, boolean(muted));
            let f = e + ",\"type\":\"volume\",\"value\":"@;
            lemma_nul_free_concat(e, ",\"type\":\"volume\",\"value\":"@);
            let g = f + decimal(value as int);
            lemma_nul_free_concat(f, decimal(value as int));
            lemma_nul_free_concat(g, "}"@);
        },
        MessageView::Brightness { value, max } => {
            lemma_decimal_nul_free(max as int);
            lemma_decimal_nul_free(value as int);
            let a = "{\"max_value\":"@ + decimal(max as int);
            lemma_nul_free_concat("{\"max_value\":"@, decimal(max as int));
            let b = a + ",\"type\":\"brightness\",\"value\":"@;
            lemma_nul_free_concat(a, ",\"type\":\"brightness\",\"value\":"@);
            let c = b + decimal(value as int);
            lemma_nul_free_concat(b, decimal(value as int));
            lemma_nul_free_concat(c, "}"@);
        },
        MessageView::Text { text } => {
            lemma_quoted_nul_free(text);
            lemma_nul_free_concat("{\"text\":"@, quoted(text));
            lemma_nul_free_concat("{\"text\":"@ + quoted(text), ",\"type\":\"text\"}"@);
        },
        MessageView::Raw { json } => {},
    }
}

/// The bytes of a text read back as that text.
pub proof fn lemma_payload_text(text: Seq<char>)
    ensures
        text_of(payload_of(text)) == Ok::<Seq<char>, MessageError>(text),
{
    encode_utf8_valid_utf8(text);
    encode_utf8_decode_utf8(text);
}

/// Round trip of a wire text: however the frame of a text without NUL that
/// fits the size bound is cut into chunks, a fresh decoder reports exactly
/// one frame, and that frame reads back as the text.
pub proof fn lemma_text_round_trip(text: Seq<char>, chunks: Seq<Seq<u8>>)
    requires
        nul_free(text),
        text.len() > 0,
        payload_of(text).len() <= MAX_MESSAGE_SIZE,
        chunks.flatten() == frame_bytes(payload_of(text)),
    ensures
        feed_all(idle(), chunks) == (Decoded {
            state: idle(),
            events: seq![FrameEventView::Frame(payload_of(text))],
        }),
        text_of(payload_of(text)) == Ok::<Seq<char>, MessageError>(text),
{
    lemma_payload_delimiter_free(text);
    lemma_round_trip(payload_of(text), chunks);
    lemma_payload_text(text);
}

/// Round trip of a message: however the frame of a message whose wire text
/// fits the size bound is cut into chunks, a fresh decoder reports exactly
/// one frame, and that frame reads back as the wire text of the message.
/// The text of a raw message is taken to hold no NUL, as JSON does not.
pub proof fn lemma_message_round_trip(m: MessageView, chunks: Seq<Seq<u8>>)
    requires
        m matches MessageView::Raw { json } ==> nul_free(json) && json.len() > 0,
        payload_of(wire_text(m)).len() <= MAX_MESSAGE_SIZE,
        chunks.flatten() == frame_bytes(payload_of(wire_text(m))),
    ensures
        feed_all(idle(), chunks) == (Decoded {
            state: idle(),
            events: seq![FrameEventView::Frame(payload_of(wire_text(m)))],
        }),
        text_of(payload_of(wire_text(m))) == Ok::<Seq<char>, MessageError>(wire_text(m)),
{
    lemma_wire_text_nul_free(m);
    lemma_text_round_trip(wire_text(m), chunks);
}

} // verus!
