//! The consumer's end of the channel: how it is set up, and what one
//! non-blocking read means for the decoder.
//!
//! The end of the stream is not the end of the channel: a producer closes
//! its end after every message, so the consumer keeps the descriptor, keeps
//! what is pending, and polls on.

use crate::frame::{decode, event_views, FrameDecoder, FrameEvent};
use vstd::prelude::*;

verus! {

/// Permission bits of the channel: its owner reads and writes, group and
/// others write.
pub const PIPE_MODE: u32 = 0o622;

/// Size of the buffer that one read fills.
pub const READ_BUFFER_SIZE: usize = 1024;

/// One step in setting up the channel.
#[derive(Debug, Clone, Copy, PartialEq, Eq, Structural)]
pub enum SetupStep {
    /// Remove what is left at the channel's path from an earlier run.
    RemoveStale,
    /// Create the channel with these permission bits.
    Create { mode: u32 },
}

/// Why the channel could not be set up. Either is fatal to the presenter.
#[derive(Debug, Clone, Copy, PartialEq, Eq, Structural)]
pub enum ChannelSetupError {
    /// What was left at the path could not be removed.
    RemoveFailed,
    /// The channel could not be created.
    CreateFailed,
}

/// The steps that set up the channel, in order: what is left at the path
/// is removed first, then the channel is created with `PIPE_MODE`.
pub open spec fn setup_plan(stale: bool) -> Seq<SetupStep> {
    if stale {
        seq![SetupStep::RemoveStale, SetupStep::Create { mode: PIPE_MODE }]
    } else {
        seq![SetupStep::Create { mode: PIPE_MODE }]
    }
}

/// Says how to set up the channel, given whether something is left at its
/// path. The channel is made anew at every start, and never removed at the
/// end.
pub fn setup_pipe(stale: bool) -> (steps: Vec<SetupStep>)
    ensures
        steps@ == setup_plan(stale),
{
    let mut steps: Vec<SetupStep> = Vec::new();
    if stale {
        steps.push(SetupStep::RemoveStale);
    }
    steps.push(SetupStep::Create { mode: PIPE_MODE });
    assert(steps@ =~= setup_plan(stale));
    steps
}

/// The error that a failed step gives.
pub fn setup_failure(step: SetupStep) -> (e: ChannelSetupError)
    ensures
        e == match step {
            SetupStep::RemoveStale => ChannelSetupError::RemoveFailed,
            SetupStep::Create { mode } => ChannelSetupError::CreateFailed,
        },
{
    match step {
        SetupStep::RemoveStale => ChannelSetupError::RemoveFailed,
        SetupStep::Create { .. } => ChannelSetupError::CreateFailed,
    }
}

/// How one non-blocking read ended.
#[derive(Debug, Clone, Copy, PartialEq, Eq, Structural)]
pub enum ReadOutcome {
    /// The read put this many bytes at the start of the buffer; none at the
    /// end of the stream.
    Count(usize),
    /// Nothing is ready.
    WouldBlock,
    /// The read failed for another reason.
    Failed,
}

/// What a read brought.
#[derive(Debug, Clone, PartialEq, Eq)]
pub struct Received {
    /// What became complete, oldest first.
    pub events: Vec<FrameEvent>,
    /// Whether the read failed and the failure is to be logged.
    pub failed: bool,
}

/// The bytes that a read delivered: the first `n` of the buffer for a count
/// of `n`, as far as the buffer goes, and none otherwise.
pub open spec fn delivered(buffer: Seq<u8>, outcome: ReadOutcome) -> Seq<u8> {
    match outcome {
        ReadOutcome::Count(n) => if n <= buffer.len() {
            buffer.take(n as int)
        } else {
            buffer
        },
        _ => Seq::empty(),
    }
}

/// Takes in the outcome of one read into `buffer`.
///
/// The bytes that the read delivered are decoded. A read that delivered
/// none, because the stream is at its end, nothing is ready or the read
/// failed, leaves the decoder as it was; only a failed read is marked for
/// the log. The caller polls on in every case.
pub fn on_read(decoder: &mut FrameDecoder, buffer: &[u8], outcome: ReadOutcome) -> (r: Received)
    ensures
        final(decoder)@ == decode(old(decoder)@, delivered(buffer@, outcome)).state,
        event_views(r.events@) == decode(old(decoder)@, delivered(buffer@, outcome)).events,
        r.failed == (outcome is Failed),
{
    match outcome {
        ReadOutcome::Count(n) => {
            let end = if n <= buffer.len() {
                n
            } else {
                buffer.len()
            };
            proof {
                assert(buffer@.subrange(0, end as int) =~= delivered(buffer@, outcome));
            }
            let events = decoder.feed(&buffer[0..end]);
            Received { events, failed: false }
        },
        ReadOutcome::WouldBlock => {
            let r = Received { events: Vec::new(), failed: false };
            assert(event_views(r.events@) =~= Seq::empty());
            r
        },
        ReadOutcome::Failed => {
            let r = Received { events: Vec::new(), failed: true };
            assert(event_views(r.events@) =~= Seq::empty());
            r
        },
    }
}

} // verus!
