//! A bounded memory of recent call identifiers.
//!
//! A producer that watches for volume changes also causes some itself, and
//! must not react to its own calls. It remembers the identifiers of its
//! last few calls here; the memory is made once at startup and handed to
//! the detection routine by reference.

use std::collections::VecDeque;
use vstd::prelude::*;

verus! {

/// How many identifiers are remembered.
pub const MAX_QUEUE_SIZE: usize = 10;

/// The identifiers of the most recent calls, oldest first.
pub struct RecentCalls {
    queue: VecDeque<u32>,
}

impl View for RecentCalls {
    type V = Seq<u32>;

    closed spec fn view(&self) -> Seq<u32> {
        self.queue@
    }
}

/// The memory `q` after `id` was added: the oldest identifier leaves first
/// if the memory is full.
pub open spec fn remembered(q: Seq<u32>, id: u32) -> Seq<u32> {
    if q.len() >= MAX_QUEUE_SIZE {
        q.drop_first().push(id)
    } else {
        q.push(id)
    }
}

/// The memory after `ids` were added in order to an empty one.
pub open spec fn remembered_all(ids: Seq<u32>) -> Seq<u32>
    decreases ids.len(),
{
    if ids.len() == 0 {
        Seq::empty()
    } else {
        remembered(remembered_all(ids.drop_last()), ids.last())
    }
}

/// The memory never grows past `MAX_QUEUE_SIZE`, and it holds exactly the
/// last identifiers that were added, as many as fit.
pub proof fn lemma_remembers_the_last(ids: Seq<u32>)
    ensures
        remembered_all(ids).len() <= MAX_QUEUE_SIZE,
        remembered_all(ids) == if ids.len() <= MAX_QUEUE_SIZE {
            ids
        } else {
            ids.subrange(ids.len() - MAX_QUEUE_SIZE, ids.len() as int)
        },
    decreases ids.len(),
{
    if ids.len() > 0 {
        lemma_remembers_the_last(ids.drop_last());
        let before = remembered_all(ids.drop_last());
        let expected = if ids.len() <= MAX_QUEUE_SIZE {
            ids
        } else {
            ids.subrange(ids.len() - MAX_QUEUE_SIZE, ids.len() as int)
        };
        assert(remembered(before, ids.last()) =~= expected);
    }
}

impl RecentCalls {
    /// An empty memory.
    pub fn new() -> (recent: RecentCalls)
        ensures
            recent@ == Seq::<u32>::empty(),
    {
        RecentCalls { queue: VecDeque::with_capacity(MAX_QUEUE_SIZE) }
    }

    /// How many identifiers are remembered.
    pub fn len(&self) -> (n: usize)
        ensures
            n == self@.len(),
    {
        self.queue.len()
    }

    /// Remembers `id` as the most recent call, forgetting the oldest one if
    /// the memory is full.
    pub fn remember(&mut self, id: u32)
        ensures
            final(self)@ == remembered(old(self)@, id),
    {
        if self.queue.len() >= MAX_QUEUE_SIZE {
            let _ = self.queue.pop_front();
        }
        self.queue.push_back(id);
        assert(self@ =~= remembered(old(self)@, id));
    }

    /// Whether `id` is among the remembered calls.
    pub fn contains(&self, id: u32) -> (found: bool)
        ensures
            found == self@.contains(id),
    {
        let mut i: usize = 0;
        while i < self.queue.len()
            invariant
                i <= self.queue@.len(),
                forall|k: int| 0 <= k < i ==> self.queue@[k] != id,
            decreases self.queue@.len() - i,
        {
            if self.queue[i] == id {
                return true;
            }
            i += 1;
        }
        false
    }
}

} // verus!
