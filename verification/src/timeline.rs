//! A model of the presenter over time, and what holds of it.
//!
//! The model pairs the display state with the timers that the scheduler
//! holds, and replays what a caller of `handle_message`, `timer_armed` and
//! `timer_fired` does for each event: it drops the timer that a transition
//! names, arms one of `HIDE_AFTER_SECS` for every message shown and reports
//! it. The scheduler fires only timers that it holds.

use crate::display::{content_of, handled, DisplayStateView, TimerToken, HIDE_AFTER_SECS};
use crate::message::{classify, OsdMessageView};
use vstd::prelude::*;

verus! {

/// The presenter between two events.
#[verifier::ext_equal]
pub struct Presenter {
    /// The state of the surface.
    pub display: DisplayStateView,
    /// The timers that the scheduler holds, each with the instant, in
    /// milliseconds, at which it is due.
    pub pending: Map<TimerToken, int>,
}

/// What can happen to the presenter.
pub enum Event {
    /// A wire record arrives at instant `at`; if the presenter arms a timer
    /// in answer, the scheduler names it `token`.
    Arrival { at: int, record: OsdMessageView, token: TimerToken },
    /// The scheduler fires the timer `token`.
    Expiry { token: TimerToken },
}

/// The presenter at startup: nothing shown, no timer armed.
pub open spec fn startup() -> Presenter {
    Presenter { display: DisplayStateView::Idle, pending: Map::empty() }
}

/// `pending` without the timer `cancel`, if there is one to drop.
pub open spec fn dropped(pending: Map<TimerToken, int>, cancel: Option<TimerToken>) -> Map<
    TimerToken,
    int,
> {
    match cancel {
        Some(t) => pending.remove(t),
        None => pending,
    }
}

/// The presenter after one event.
pub open spec fn step(p: Presenter, e: Event) -> Presenter {
    match e {
        Event::Arrival { at, record, token } => {
            if classify(record) is Ok {
                let kept = dropped(p.pending, p.display.timer());
                Presenter {
                    display: handled(p.display, record).armed(token),
                    pending: kept.insert(token, at + 1000 * HIDE_AFTER_SECS),
                }
            } else {
                p
            }
        },
        Event::Expiry { token } => {
            if p.pending.contains_key(token) {
                Presenter { display: p.display.fired(token), pending: p.pending.remove(token) }
            } else {
                p
            }
        },
    }
}

/// The presenter after `events`, in order.
pub open spec fn run(p: Presenter, events: Seq<Event>) -> Presenter
    decreases events.len(),
{
    if events.len() == 0 {
        p
    } else {
        step(run(p, events.drop_last()), events.last())
    }
}

/// The presenter is settled: an idle surface has no timer pending, a
/// visible one has exactly one, and it is the one that the state holds.
pub open spec fn settled(p: Presenter) -> bool {
    match p.display {
        DisplayStateView::Idle => p.pending =~= Map::empty(),
        DisplayStateView::Visible { content, timer } => {
            &&& timer is Some
            &&& p.pending.dom() =~= set![timer->Some_0]
        },
    }
}

/// Every event leaves a settled presenter settled.
pub proof fn lemma_step_settled(p: Presenter, e: Event)
    requires
        settled(p),
    ensures
        settled(step(p, e)),
{
    match e {
        Event::Arrival { at, record, token } => {
            if classify(record) is Ok {
                assert(content_of(classify(record)->Ok_0) is Some);
                let kept = dropped(p.pending, p.display.timer());
                assert(kept.dom() =~= Set::empty());
                assert(kept.insert(token, at + 1000 * HIDE_AFTER_SECS).dom() =~= set![token]);
            }
        },
        Event::Expiry { token } => {
            if p.pending.contains_key(token) {
                assert(p.display.timer() == Some(token));
                assert(p.pending.remove(token).dom() =~= Set::empty());
                assert(p.pending.remove(token) =~= Map::empty());
            }
        },
    }
}

/// At most one timer: after any events from startup the presenter is
/// settled, so the scheduler holds one timer while the surface is visible,
/// none while it is idle, and a timer that fires is always the one of the
/// content now shown.
pub proof fn lemma_one_timer(events: Seq<Event>)
    ensures
        settled(run(startup(), events)),
        run(startup(), events).pending.dom().finite(),
        run(startup(), events).pending.dom().len() <= 1,
        run(startup(), events).display is Visible <==> run(startup(), events).pending.dom().len()
            == 1,
    decreases events.len(),
{
    if events.len() > 0 {
        lemma_one_timer(events.drop_last());
        lemma_step_settled(run(startup(), events.drop_last()), events.last());
    }
    let p = run(startup(), events);
    match p.display {
        DisplayStateView::Idle => {
            assert(p.pending.dom() =~= Set::empty());
        },
        DisplayStateView::Visible { content, timer } => {
            assert(p.pending.dom() =~= Set::empty().insert(timer->Some_0));
        },
    }
}

/// No stale timer: in a settled presenter every timer that fires is the one
/// of the content now shown, and its firing leaves the surface idle with
/// no timer pending.
pub proof fn lemma_fired_timer_is_current(p: Presenter, token: TimerToken)
    requires
        settled(p),
        p.pending.contains_key(token),
    ensures
        p.display.timer() == Some(token),
        step(p, Event::Expiry { token }) == startup(),
{
    assert(p.pending.remove(token).dom() =~= Set::empty());
    assert(p.pending.remove(token) =~= Map::empty());
}

/// Debounce: when the same message arrives twice, the first timer is
/// dropped and the surface shows the message once, with one timer pending,
/// due `HIDE_AFTER_SECS` after the second arrival. A late firing of the
/// first timer changes nothing; the firing of the second makes the surface
/// idle, with no timer left to fire again.
pub proof fn lemma_debounce(
    p: Presenter,
    record: OsdMessageView,
    first_at: int,
    first: TimerToken,
    second_at: int,
    second: TimerToken,
)
    requires
        settled(p),
        classify(record) is Ok,
    ensures
        ({
            let content = content_of(classify(record)->Ok_0)->Some_0;
            let once = step(p, Event::Arrival { at: first_at, record, token: first });
            let twice = step(once, Event::Arrival { at: second_at, record, token: second });
            &&& once.display == DisplayStateView::Visible { content, timer: Some(first) }
            &&& twice.display == DisplayStateView::Visible { content, timer: Some(second) }
            &&& twice.pending == Map::<TimerToken, int>::empty().insert(
                second,
                second_at + 1000 * HIDE_AFTER_SECS,
            )
            &&& first != second ==> step(twice, Event::Expiry { token: first }) == twice
            &&& step(twice, Event::Expiry { token: second }) == startup()
        }),
{
    let once = step(p, Event::Arrival { at: first_at, record, token: first });
    let twice = step(once, Event::Arrival { at: second_at, record, token: second });
    lemma_step_settled(p, Event::Arrival { at: first_at, record, token: first });
    assert(content_of(classify(record)->Ok_0) is Some);
    let kept = dropped(once.pending, once.display.timer());
    assert(kept =~= Map::empty());
    assert(twice.pending =~= Map::<TimerToken, int>::empty().insert(
        second,
        second_at + 1000 * HIDE_AFTER_SECS,
    ));
    assert(twice.pending.remove(second) =~= Map::empty());
    assert(step(twice, Event::Expiry { token: second }) =~= startup());
}

/// A record that is malformed or of unknown kind changes nothing.
pub proof fn lemma_rejected_changes_nothing(
    p: Presenter,
    at: int,
    record: OsdMessageView,
    token: TimerToken,
)
    requires
        classify(record) is Err,
    ensures
        step(p, Event::Arrival { at, record, token }) == p,
{
}

/// Running `a + b` is running `a` and then `b`.
pub proof fn lemma_run_concat(p: Presenter, a: Seq<Event>, b: Seq<Event>)
    ensures
        run(p, a + b) == run(run(p, a), b),
    decreases b.len(),
{
    if b.len() == 0 {
        assert(a + b =~= a);
    } else {
        assert((a + b).drop_last() =~= a + b.drop_last());
        assert((a + b).last() == b.last());
        lemma_run_concat(p, a, b.drop_last());
    }
}

/// Malformed input resilience: a record that is malformed or of unknown
/// kind, wherever it arrives among other events, leaves the presenter where
/// those other events alone take it. The messages before and after it are
/// applied as if it had not been there.
pub proof fn lemma_rejected_is_skipped(
    p: Presenter,
    before: Seq<Event>,
    at: int,
    record: OsdMessageView,
    token: TimerToken,
    after: Seq<Event>,
)
    requires
        classify(record) is Err,
    ensures
        run(p, before + seq![Event::Arrival { at, record, token }] + after) == run(
            p,
            before + after,
        ),
{
    let bad = seq![Event::Arrival { at, record, token }];
    lemma_run_concat(p, before + bad, after);
    lemma_run_concat(p, before, bad);
    lemma_run_concat(p, before, after);
    assert(bad.drop_last() =~= Seq::<Event>::empty());
    assert(run(run(p, before), bad.drop_last()) == run(p, before));
    assert(run(run(p, before), bad) == step(run(p, before), bad.last()));
}

} // verus!
