//! Framing of the byte channel: every message travels as its payload
//! followed by one delimiter byte, and the decoder turns arbitrary chunks of
//! the stream back into whole payloads.

use crate::stream::{lemma_decode_wf, lemma_frames_are_valid};
use vstd::prelude::*;

verus! {

/// Largest payload, in bytes, that one frame may carry.
pub const MAX_MESSAGE_SIZE: usize = 8192;

/// The byte that ends every frame on the channel.
pub const DELIMITER: u8 = 0;

/// What the decoder reports while it reads the stream.
#[derive(Debug, Clone, PartialEq, Eq)]
pub enum FrameEvent {
    /// A complete payload, without its delimiter.
    Frame(Vec<u8>),
    /// A run of bytes grew past `MAX_MESSAGE_SIZE` and was thrown away.
    Oversized,
}

/// The mathematical value of a `FrameEvent`.
#[verifier::ext_equal]
pub enum FrameEventView {
    Frame(Seq<u8>),
    Oversized,
}

impl View for FrameEvent {
    type V = FrameEventView;

    open spec fn view(&self) -> FrameEventView {
        match self {
            FrameEvent::Frame(payload) => FrameEventView::Frame(payload@),
            FrameEvent::Oversized => FrameEventView::Oversized,
        }
    }
}

/// The views of a sequence of events, in order.
pub open spec fn event_views(events: Seq<FrameEvent>) -> Seq<FrameEventView> {
    events.map_values(|e: FrameEvent| e@)
}

/// What the decoder remembers between two chunks.
#[verifier::ext_equal]
pub struct DecoderState {
    /// The bytes of the frame in progress.
    pub pending: Seq<u8>,
    /// Whether the run in progress has overflowed and is being skipped up to
    /// the next delimiter.
    pub discarding: bool,
}

impl DecoderState {
    /// What holds of every state that a decoder can reach: the pending bytes
    /// fit the size bound and hold no delimiter, and nothing is pending
    /// while a run is being skipped.
    pub open spec fn wf(self) -> bool {
        &&& self.pending.len() <= MAX_MESSAGE_SIZE
        &&& delimiter_free(self.pending)
        &&& self.discarding ==> self.pending.len() == 0
    }
}

/// The result of decoding some bytes: the state reached and the events
/// reported on the way, oldest first.
#[verifier::ext_equal]
pub struct Decoded {
    pub state: DecoderState,
    pub events: Seq<FrameEventView>,
}

/// The state of a decoder that has seen nothing, or has just seen a delimiter.
pub open spec fn idle() -> DecoderState {
    DecoderState { pending: Seq::empty(), discarding: false }
}

/// Whether `bytes` holds no delimiter.
pub open spec fn delimiter_free(bytes: Seq<u8>) -> bool {
    forall|i: int| 0 <= i < bytes.len() ==> bytes[i] != DELIMITER
}

/// Whether `payload` can travel as one frame: it is not empty, it fits the
/// size bound and it does not hold the delimiter.
pub open spec fn valid_payload(payload: Seq<u8>) -> bool {
    &&& 0 < payload.len() <= MAX_MESSAGE_SIZE
    &&& delimiter_free(payload)
}

/// The bytes of the frame that carries `payload`.
pub open spec fn frame_bytes(payload: Seq<u8>) -> Seq<u8> {
    payload.push(DELIMITER)
}

/// The effect of one byte of the stream.
///
/// A delimiter ends the run in progress: a run that was being skipped ends
/// silently, an empty run reports nothing, any other run is reported as a
/// frame. Another byte joins the run, unless the run is being skipped; the
/// byte that would make the run longer than `MAX_MESSAGE_SIZE` throws the
/// run away and is reported once as `Oversized`.
pub open spec fn decode_byte(s: DecoderState, b: u8) -> Decoded {
    if b == DELIMITER {
        Decoded {
            state: idle(),
            events: if s.discarding || s.pending.len() == 0 {
                Seq::empty()
            } else {
                seq![FrameEventView::Frame(s.pending)]
            },
        }
    } else if s.discarding {
        Decoded { state: s, events: Seq::empty() }
    } else if s.pending.len() >= MAX_MESSAGE_SIZE {
        Decoded {
            state: DecoderState { pending: Seq::empty(), discarding: true },
            events: seq![FrameEventView::Oversized],
        }
    } else {
        Decoded {
            state: DecoderState { pending: s.pending.push(b), discarding: false },
            events: Seq::empty(),
        }
    }
}

/// The effect of `bytes`, read in order from state `s`.
pub open spec fn decode(s: DecoderState, bytes: Seq<u8>) -> Decoded
    decreases bytes.len(),
{
    if bytes.len() == 0 {
        Decoded { state: s, events: Seq::empty() }
    } else {
        let before = decode(s, bytes.drop_last());
        let last = decode_byte(before.state, bytes.last());
        Decoded { state: last.state, events: before.events + last.events }
    }
}

/// Decoding `a + b` is decoding `a` and then `b` from the state reached.
pub proof fn lemma_decode_concat(s: DecoderState, a: Seq<u8>, b: Seq<u8>)
    ensures
        decode(s, a + b).state == decode(decode(s, a).state, b).state,
        decode(s, a + b).events == decode(s, a).events + decode(decode(s, a).state, b).events,
    decreases b.len(),
{
    if b.len() == 0 {
        assert(a + b =~= a);
        assert(decode(s, a).events + Seq::<FrameEventView>::empty() =~= decode(s, a).events);
    } else {
        assert((a + b).drop_last() =~= a + b.drop_last());
        assert((a + b).last() == b.last());
        lemma_decode_concat(s, a, b.drop_last());
        let mid = decode(s, a);
        let before = decode(mid.state, b.drop_last());
        let last = decode_byte(before.state, b.last());
        assert(decode(s, a + b).events =~= mid.events + (before.events + last.events));
    }
}

/// A run without a delimiter joins the pending bytes if the whole still
/// fits; otherwise it is reported once as `Oversized` and skipped. A run
/// that is already being skipped stays skipped.
pub proof fn lemma_decode_run(s: DecoderState, run: Seq<u8>)
    requires
        delimiter_free(run),
    ensures
        s.discarding ==> decode(s, run) == (Decoded { state: s, events: Seq::empty() }),
        !s.discarding && (run.len() == 0 || s.pending.len() + run.len() <= MAX_MESSAGE_SIZE)
            ==> decode(s, run) == (Decoded {
            state: DecoderState { pending: s.pending + run, discarding: false },
            events: Seq::empty(),
        }),
        !s.discarding && run.len() > 0 && s.pending.len() + run.len() > MAX_MESSAGE_SIZE
            ==> decode(s, run) == (Decoded {
            state: DecoderState { pending: Seq::empty(), discarding: true },
            events: seq![FrameEventView::Oversized],
        }),
    decreases run.len(),
{
    if run.len() == 0 {
        assert(s.pending + run =~= s.pending);
    } else {
        let head = run.drop_last();
        lemma_decode_run(s, head);
        let before = decode(s, head);
        let last = decode_byte(before.state, run.last());
        assert(run.last() == run[run.len() - 1]);
        assert(run.last() != DELIMITER);
        if s.discarding {
            assert(before.events + last.events =~= Seq::<FrameEventView>::empty());
        } else if s.pending.len() + run.len() <= MAX_MESSAGE_SIZE {
            assert((s.pending + head).push(run.last()) =~= s.pending + run);
            assert(before.events + last.events =~= Seq::<FrameEventView>::empty());
        } else {
            assert(before.events + last.events =~= seq![FrameEventView::Oversized]);
        }
    }
}

/// Incremental decoder of the channel's byte stream.
///
/// It keeps the bytes of the frame in progress between two chunks, never
/// more than `MAX_MESSAGE_SIZE` of them, and nothing else.
pub struct FrameDecoder {
    pending: Vec<u8>,
    discarding: bool,
}

impl View for FrameDecoder {
    type V = DecoderState;

    closed spec fn view(&self) -> DecoderState {
        DecoderState { pending: self.pending@, discarding: self.discarding }
    }
}

impl FrameDecoder {
    /// A decoder that has seen no byte yet.
    pub fn new() -> (decoder: FrameDecoder)
        ensures
            decoder@ == idle(),
            decoder@.wf(),
    {
        FrameDecoder { pending: Vec::new(), discarding: false }
    }

    /// Number of bytes held for the frame in progress.
    pub fn pending_len(&self) -> (n: usize)
        ensures
            n == self@.pending.len(),
    {
        self.pending.len()
    }

    /// Whether the decoder is skipping the rest of an oversized run.
    pub fn is_discarding(&self) -> (b: bool)
        ensures
            b == self@.discarding,
    {
        self.discarding
    }

    /// Takes in a run of bytes that holds no delimiter.
    fn absorb(&mut self, run: &[u8]) -> (overflow: bool)
        requires
            delimiter_free(run@),
        ensures
            final(self)@ == decode(old(self)@, run@).state,
            decode(old(self)@, run@).events == if overflow {
                seq![FrameEventView::Oversized]
            } else {
                Seq::<FrameEventView>::empty()
            },
    {
        proof {
            lemma_decode_run(self@, run@);
        }
        let overflow = if self.discarding || run.len() == 0 {
            false
        } else if self.pending.len() > MAX_MESSAGE_SIZE || run.len() > MAX_MESSAGE_SIZE
            - self.pending.len() {
            self.pending.clear();
            self.discarding = true;
            true
        } else {
            self.pending.extend_from_slice(run);
            false
        };
        assert(self@ =~= decode(old(self)@, run@).state);
        overflow
    }

    /// Ends the run in progress at a delimiter, handing out its bytes if it
    /// is a frame.
    fn finish(&mut self) -> (frame: Option<Vec<u8>>)
        ensures
            final(self)@ == idle(),
            decode_byte(old(self)@, DELIMITER).state == idle(),
            decode_byte(old(self)@, DELIMITER).events == match frame {
                Some(payload) => seq![FrameEventView::Frame(payload@)],
                None => Seq::<FrameEventView>::empty(),
            },
    {
        let frame = if self.discarding {
            self.discarding = false;
            self.pending.clear();
            None
        } else if self.pending.len() == 0 {
            None
        } else {
            let mut payload: Vec<u8> = Vec::new();
            std::mem::swap(&mut payload, &mut self.pending);
            Some(payload)
        };
        assert(self@ =~= idle());
        frame
    }

    /// Decodes one chunk of the stream, as large or small as the channel
    /// delivered it, and returns what became complete in it, oldest first.
    ///
    /// The result is that of reading the chunk byte by byte: how the stream
    /// was cut into chunks makes no difference. A decoder that was well
    /// formed stays so, and every frame that it hands out is a valid
    /// payload, never longer than `MAX_MESSAGE_SIZE`.
    pub fn feed(&mut self, chunk: &[u8]) -> (events: Vec<FrameEvent>)
        ensures
            final(self)@ == decode(old(self)@, chunk@).state,
            event_views(events@) == decode(old(self)@, chunk@).events,
            old(self)@.wf() ==> final(self)@.wf(),
            old(self)@.wf() ==> forall|k: int|
                0 <= k < events@.len() ==> (#[trigger] events@[k] matches FrameEvent::Frame(
                    payload,
                ) ==> valid_payload(payload@)),
    {
        let mut events: Vec<FrameEvent> = Vec::new();
        let mut start: usize = 0;
        let mut i: usize = 0;
        proof {
            assert(chunk@.take(0) =~= Seq::<u8>::empty());
            assert(event_views(events@) =~= Seq::<FrameEventView>::empty());
        }
        while i < chunk.len()
            invariant
                start <= i <= chunk.len(),
                delimiter_free(chunk@.subrange(start as int, i as int)),
                self@ == decode(old(self)@, chunk@.take(start as int)).state,
                event_views(events@) == decode(old(self)@, chunk@.take(start as int)).events,
            decreases chunk.len() - i,
        {
            if chunk[i] == DELIMITER {
                let ghost before = self@;
                let ghost seen = event_views(events@);
                let ghost run = chunk@.subrange(start as int, i as int);
                let overflow = self.absorb(&chunk[start..i]);
                if overflow {
                    events.push(FrameEvent::Oversized);
                }
                let ghost middle = self@;
                let ghost reported = event_views(events@);
                match self.finish() {
                    Some(payload) => {
                        events.push(FrameEvent::Frame(payload));
                    },
                    None => {},
                }
                proof {
                    let head = chunk@.take(start as int);
                    let upto = chunk@.take(i as int);
                    let next = chunk@.take(i + 1);
                    assert(upto =~= head + run);
                    lemma_decode_concat(old(self)@, head, run);
                    assert(next.drop_last() =~= upto);
                    assert(next.last() == DELIMITER);
                    assert(reported =~= seen + decode(before, run).events);
                    assert(event_views(events@) =~= reported + decode_byte(
                        middle,
                        DELIMITER,
                    ).events);
                    assert(chunk@.subrange(i + 1, i + 1) =~= Seq::<u8>::empty());
                }
                start = i + 1;
            } else {
                proof {
                    let wider = chunk@.subrange(start as int, i + 1);
                    assert forall|k: int| 0 <= k < wider.len() implies wider[k] != DELIMITER by {
                        if k < i - start {
                            assert(wider[k] == chunk@.subrange(start as int, i as int)[k]);
                        }
                    }
                }
            }
            i += 1;
        }
        let ghost seen = event_views(events@);
        let ghost before = self@;
        let overflow = self.absorb(&chunk[start..chunk.len()]);
        if overflow {
            events.push(FrameEvent::Oversized);
        }
        proof {
            let head = chunk@.take(start as int);
            let run = chunk@.subrange(start as int, chunk@.len() as int);
            assert(chunk@ =~= head + run);
            lemma_decode_concat(old(self)@, head, run);
            assert(event_views(events@) =~= seen + decode(before, run).events);
            if old(self)@.wf() {
                lemma_decode_wf(old(self)@, chunk@);
                assert forall|k: int| 0 <= k < events@.len() implies (
                #[trigger] events@[k] matches FrameEvent::Frame(payload) ==> valid_payload(
                    payload@,
                )) by {
                    assert(event_views(events@)[k] == events@[k]@);
                    if events@[k] is Frame {
                        lemma_frames_are_valid(old(self)@, chunk@, k);
                    }
                }
            }
        }
        events
    }
}

} // verus!
