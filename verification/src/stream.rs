//! What the frame decoder guarantees of whole streams: the way the channel
//! cuts the stream into chunks is invisible, frames come out whole and in
//! order, and an oversized run costs nothing but itself.

use crate::frame::{
    decode, delimiter_free, frame_bytes, idle, lemma_decode_concat, lemma_decode_run, valid_payload,
    Decoded, DecoderState, FrameEventView, DELIMITER, MAX_MESSAGE_SIZE,
};
use vstd::prelude::*;

verus! {

/// The effect of feeding `chunks` to a decoder one after another, from
/// state `s`.
pub open spec fn feed_all(s: DecoderState, chunks: Seq<Seq<u8>>) -> Decoded
    decreases chunks.len(),
{
    if chunks.len() == 0 {
        Decoded { state: s, events: Seq::empty() }
    } else {
        let before = feed_all(s, chunks.drop_last());
        let last = decode(before.state, chunks.last());
        Decoded { state: last.state, events: before.events + last.events }
    }
}

/// The bytes that a producer writes for `payloads`: one frame after another.
pub open spec fn frames_of(payloads: Seq<Seq<u8>>) -> Seq<u8>
    decreases payloads.len(),
{
    if payloads.len() == 0 {
        Seq::empty()
    } else {
        frames_of(payloads.drop_last()) + frame_bytes(payloads.last())
    }
}

/// One `Frame` event for each payload, in order.
pub open spec fn frame_events(payloads: Seq<Seq<u8>>) -> Seq<FrameEventView> {
    payloads.map_values(|p: Seq<u8>| FrameEventView::Frame(p))
}

/// Every state that decoding reaches from a well-formed state is well
/// formed: at most `MAX_MESSAGE_SIZE` bytes are ever pending.
pub proof fn lemma_decode_wf(s: DecoderState, bytes: Seq<u8>)
    requires
        s.wf(),
    ensures
        decode(s, bytes).state.wf(),
    decreases bytes.len(),
{
    if bytes.len() > 0 {
        lemma_decode_wf(s, bytes.drop_last());
        let before = decode(s, bytes.drop_last()).state;
        let b = bytes.last();
        if b != DELIMITER && !before.discarding && before.pending.len() < MAX_MESSAGE_SIZE {
            let grown = before.pending.push(b);
            assert forall|i: int| 0 <= i < grown.len() implies grown[i] != DELIMITER by {
                if i < before.pending.len() {
                    assert(grown[i] == before.pending[i]);
                }
            }
        }
    }
}

/// Every frame that decoding reports from a well-formed state is a valid
/// payload: no frame longer than `MAX_MESSAGE_SIZE` is ever handed on.
pub proof fn lemma_frames_are_valid(s: DecoderState, bytes: Seq<u8>, k: int)
    requires
        s.wf(),
        0 <= k < decode(s, bytes).events.len(),
        decode(s, bytes).events[k] is Frame,
    ensures
        valid_payload(decode(s, bytes).events[k]->Frame_0),
    decreases bytes.len(),
{
    if bytes.len() > 0 {
        let before = decode(s, bytes.drop_last());
        lemma_decode_wf(s, bytes.drop_last());
        if k < before.events.len() {
            lemma_frames_are_valid(s, bytes.drop_last(), k);
        }
    }
}

/// Chunking is invisible: feeding the chunks one by one gives the state and
/// the events that decoding their concatenation gives.
pub proof fn lemma_chunking(s: DecoderState, chunks: Seq<Seq<u8>>)
    ensures
        feed_all(s, chunks) == decode(s, chunks.flatten()),
    decreases chunks.len(),
{
    if chunks.len() == 0 {
        assert(chunks.flatten() =~= Seq::<u8>::empty());
    } else {
        let head = chunks.drop_last();
        lemma_chunking(s, head);
        head.lemma_flatten_push(chunks.last());
        assert(head.push(chunks.last()) =~= chunks);
        lemma_decode_concat(s, head.flatten(), chunks.last());
        assert(feed_all(s, chunks) =~= decode(s, chunks.flatten()));
    }
}

/// From the idle state, the frame of a valid payload decodes to that
/// payload and leaves the decoder idle.
pub proof fn lemma_decode_frame(payload: Seq<u8>)
    requires
        valid_payload(payload),
    ensures
        decode(idle(), frame_bytes(payload)) == (Decoded {
            state: idle(),
            events: seq![FrameEventView::Frame(payload)],
        }),
{
    let bytes = frame_bytes(payload);
    assert(bytes.drop_last() =~= payload);
    lemma_decode_run(idle(), payload);
    assert(idle().pending + payload =~= payload);
    assert(decode(idle(), bytes) =~= (Decoded {
        state: idle(),
        events: seq![FrameEventView::Frame(payload)],
    }));
}

/// From the idle state, a delimited run longer than `MAX_MESSAGE_SIZE` is
/// reported once as oversized, hands out no frame, and leaves the decoder
/// idle.
pub proof fn lemma_decode_oversized(run: Seq<u8>)
    requires
        delimiter_free(run),
        run.len() > MAX_MESSAGE_SIZE,
    ensures
        decode(idle(), frame_bytes(run)) == (Decoded {
            state: idle(),
            events: seq![FrameEventView::Oversized],
        }),
{
    let bytes = frame_bytes(run);
    assert(bytes.drop_last() =~= run);
    lemma_decode_run(idle(), run);
    assert(decode(idle(), bytes) =~= (Decoded {
        state: idle(),
        events: seq![FrameEventView::Oversized],
    }));
}

/// From the idle state, the frames of valid payloads decode to exactly
/// those payloads, in the order in which they were written.
pub proof fn lemma_decode_frames(payloads: Seq<Seq<u8>>)
    requires
        forall|i: int| 0 <= i < payloads.len() ==> valid_payload(#[trigger] payloads[i]),
    ensures
        decode(idle(), frames_of(payloads)) == (Decoded {
            state: idle(),
            events: frame_events(payloads),
        }),
    decreases payloads.len(),
{
    if payloads.len() == 0 {
        assert(frame_events(payloads) =~= Seq::<FrameEventView>::empty());
    } else {
        let head = payloads.drop_last();
        assert forall|i: int| 0 <= i < head.len() implies valid_payload(#[trigger] head[i]) by {
            assert(head[i] == payloads[i]);
        }
        lemma_decode_frames(head);
        lemma_decode_frame(payloads.last());
        lemma_decode_concat(idle(), frames_of(head), frame_bytes(payloads.last()));
        assert(frame_events(head) + seq![FrameEventView::Frame(payloads.last())] =~= frame_events(
            payloads,
        ));
    }
}

/// Framing round trip: however the frame of a valid payload is cut into
/// chunks, a fresh decoder reports exactly one frame, equal to the payload,
/// and is idle again afterwards.
pub proof fn lemma_round_trip(payload: Seq<u8>, chunks: Seq<Seq<u8>>)
    requires
        valid_payload(payload),
        chunks.flatten() == frame_bytes(payload),
    ensures
        feed_all(idle(), chunks) == (Decoded {
            state: idle(),
            events: seq![FrameEventView::Frame(payload)],
        }),
{
    lemma_chunking(idle(), chunks);
    lemma_decode_frame(payload);
}

/// Order preservation: however the frames of valid payloads are cut into
/// chunks, a fresh decoder reports the payloads one by one, in the order in
/// which they were written, and nothing else.
pub proof fn lemma_order_preserved(payloads: Seq<Seq<u8>>, chunks: Seq<Seq<u8>>)
    requires
        forall|i: int| 0 <= i < payloads.len() ==> valid_payload(#[trigger] payloads[i]),
        chunks.flatten() == frames_of(payloads),
    ensures
        feed_all(idle(), chunks) == (Decoded { state: idle(), events: frame_events(payloads) }),
{
    lemma_chunking(idle(), chunks);
    lemma_decode_frames(payloads);
}

/// Overflow: a delimited run longer than `MAX_MESSAGE_SIZE` is dropped, and
/// the well-formed frame that follows it is decoded as if the run had never
/// been there, however the stream is cut into chunks.
pub proof fn lemma_oversized_is_dropped(run: Seq<u8>, payload: Seq<u8>, chunks: Seq<Seq<u8>>)
    requires
        delimiter_free(run),
        run.len() > MAX_MESSAGE_SIZE,
        valid_payload(payload),
        chunks.flatten() == frame_bytes(run) + frame_bytes(payload),
    ensures
        feed_all(idle(), chunks) == (Decoded {
            state: idle(),
            events: seq![FrameEventView::Oversized, FrameEventView::Frame(payload)],
        }),
{
    lemma_chunking(idle(), chunks);
    lemma_decode_oversized(run);
    lemma_decode_frame(payload);
    lemma_decode_concat(idle(), frame_bytes(run), frame_bytes(payload));
    assert(seq![FrameEventView::Oversized] + seq![FrameEventView::Frame(payload)] =~= seq![
        FrameEventView::Oversized,
        FrameEventView::Frame(payload),
    ]);
}

} // verus!
