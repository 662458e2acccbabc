//! The delayed-deletion scheduler: a time-ordered queue of one-shot
//! deletion tasks. Scheduling is fire-and-forget — no cancellation
//! handle exists, and tasks are independent of one another. The caller
//! pops tasks as they come due and performs the deletions, retried and,
//! after terminal failure, swallowed.

use vstd::prelude::*;
use vstd::seq_lib::to_multiset_insert;
use crate::MessageRef;

verus! {

/// A one-shot deferred deletion of one message.
#[derive(Clone, Copy, PartialEq, Eq, Structural, Debug)]
pub struct PendingDeletion {
    pub target: MessageRef,
    pub fire_at_ms: u64,
}

/// Whether a queue of tasks is ordered by firing time.
pub open spec fn time_ordered(q: Seq<PendingDeletion>) -> bool {
    forall|i: int, j: int| 0 <= i < j < q.len() ==> q[i].fire_at_ms <= q[j].fire_at_ms
}

/// The time-ordered work queue of pending deletions.
pub struct DeletionScheduler {
    queue: Vec<PendingDeletion>,
}

impl DeletionScheduler {
    /// The pending tasks, earliest firing time first.
    pub closed spec fn view(&self) -> Seq<PendingDeletion> {
        self.queue@
    }

    /// The queue is always ordered by firing time.
    pub open spec fn wf(&self) -> bool {
        time_ordered(self@)
    }

    /// An empty scheduler: nothing is pending.
    pub fn new() -> (r: Self)
        ensures
            r@ =~= Seq::<PendingDeletion>::empty(),
            r.wf(),
    {
        DeletionScheduler { queue: Vec::new() }
    }

    /// How many deletions are pending.
    pub fn len(&self) -> (r: usize)
        ensures
            r == self@.len(),
    {
        self.queue.len()
    }

    /// Registers a deferred deletion of `target`, due `delay_ms` from
    /// `now_ms`: exactly that task joins the queue, which stays ordered.
    pub fn schedule(&mut self, target: MessageRef, now_ms: u64, delay_ms: u64)
        requires
            old(self).wf(),
            now_ms + delay_ms <= u64::MAX,
        ensures
            final(self).wf(),
            final(self)@.to_multiset() == old(self)@.to_multiset().insert(
                PendingDeletion { target, fire_at_ms: (now_ms + delay_ms) as u64 },
            ),
            final(self)@.len() == old(self)@.len() + 1,
    {
        let fire_at_ms = now_ms + delay_ms;
        let task = PendingDeletion { target, fire_at_ms };
        let n = self.queue.len();
        let mut i: usize = 0;
        while i < n && self.queue[i].fire_at_ms <= fire_at_ms
            invariant
                0 <= i <= n,
                n == self.queue@.len(),
                task.fire_at_ms == fire_at_ms,
                forall|k: int| 0 <= k < i ==> self.queue@[k].fire_at_ms <= fire_at_ms,
            decreases n - i,
        {
            i = i + 1;
        }
        proof {
            to_multiset_insert(self.queue@, i as int, task);
        }
        self.queue.insert(i, task);
        proof {
            let q0 = old(self)@;
            let q1 = self@;
            assert(q1 == q0.insert(i as int, task));
            assert forall|a: int, b: int| 0 <= a < b < q1.len() implies q1[a].fire_at_ms
                <= q1[b].fire_at_ms by {
                assert(forall|k: int| 0 <= k < i ==> q1[k] == q0[k]);
                assert(q1[i as int] == task);
                assert(forall|k: int| i < k < q1.len() ==> q1[k] == q0[k - 1]);
                assert(i < q1.len() ==> q1[i as int].fire_at_ms == fire_at_ms);
            }
        }
    }

    /// When the earliest pending deletion is due, if any is pending.
    pub fn next_fire_ms(&self) -> (r: Option<u64>)
        ensures
            match r {
                Option::None => self@.len() == 0,
                Option::Some(t) => self@.len() > 0 && t == self@[0].fire_at_ms,
            },
    {
        if self.queue.len() == 0 {
            None
        } else {
            Some(self.queue[0].fire_at_ms)
        }
    }

    /// Takes the earliest pending deletion if it is due by `now_ms`. A
    /// popped task is due, fires no later than everything still queued,
    /// and leaves the rest untouched; `None` means nothing is due yet.
    pub fn pop_due(&mut self, now_ms: u64) -> (r: Option<PendingDeletion>)
        requires
            old(self).wf(),
        ensures
            final(self).wf(),
            match r {
                Option::None => final(self)@ == old(self)@ && (old(self)@.len() == 0
                    || old(self)@[0].fire_at_ms > now_ms),
                Option::Some(t) => old(self)@.len() > 0 && t == old(self)@[0] && t.fire_at_ms
                    <= now_ms && final(self)@ == old(self)@.drop_first() && (forall|k: int|
                    0 <= k < old(self)@.len() ==> old(self)@[k].fire_at_ms >= t.fire_at_ms),
            },
    {
        if self.queue.len() == 0 {
            return None;
        }
        if self.queue[0].fire_at_ms > now_ms {
            return None;
        }
        let t = self.queue.remove(0);
        proof {
            assert(self@ =~= old(self)@.drop_first());
        }
        Some(t)
    }
}

} // verus!
