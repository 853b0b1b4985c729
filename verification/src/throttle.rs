//! Coalescing queue for outgoing throttle commands.
//!
//! A control surface (a UI slider, a CLI argument) may report the same
//! value repeatedly across update ticks; enqueuing collapses consecutive
//! duplicates so the device is not sent redundant writes. A separate
//! "last command" slot always reflects the most recent `enqueue`
//! argument, even when that call was deduplicated away, so presentation
//! can read back what the control currently shows.
//!
//! Dedup policy: a command is compared against the current queue tail
//! only. The first command into an empty queue is always enqueued, even
//! when it equals the last command dequeued earlier; only what is still
//! pending suppresses a duplicate.
//!
//! Capacity policy: the pending queue holds at most
//! `THROTTLE_QUEUE_CAPACITY` commands. When a distinct command arrives
//! while the queue is full, the oldest pending command is evicted to
//! make room: throttle commands are time-sensitive, so the freshest
//! control positions win over stale ones that were never transmitted.
//! The last-command slot is unaffected by eviction.

use vstd::prelude::*;

use crate::Throttle;

use std::collections::VecDeque;

verus! {

/// The small fixed bound on pending commands.
pub const THROTTLE_QUEUE_CAPACITY: usize = 3;

/// No two adjacent pending commands are equal.
pub open spec fn no_adjacent_dups(q: Seq<Throttle>) -> bool {
    forall|i: int| 0 < i < q.len() ==> #[trigger] q[i] != q[i - 1]
}

/// What one enqueue does to the pending sequence `q`: a command equal to
/// the current tail is dropped; otherwise it is appended, after the
/// oldest pending command is evicted if the queue is full.
pub open spec fn enqueue_spec(q: Seq<Throttle>, cmd: Throttle) -> Seq<Throttle> {
    if q.len() > 0 && q.last() == cmd {
        q
    } else if q.len() < THROTTLE_QUEUE_CAPACITY {
        q.push(cmd)
    } else {
        q.skip(1).push(cmd)
    }
}

/// Coalescing dedup: enqueuing the same command twice in a row leaves
/// the pending sequence exactly as one enqueue of it does.
pub proof fn lemma_enqueue_dedup(q: Seq<Throttle>, cmd: Throttle)
    ensures
        enqueue_spec(enqueue_spec(q, cmd), cmd) == enqueue_spec(q, cmd),
{
}

/// Enqueuing preserves the adjacency invariant and the capacity bound.
pub proof fn lemma_enqueue_wf(q: Seq<Throttle>, cmd: Throttle)
    requires
        no_adjacent_dups(q),
        q.len() <= THROTTLE_QUEUE_CAPACITY,
    ensures
        no_adjacent_dups(enqueue_spec(q, cmd)),
        enqueue_spec(q, cmd).len() <= THROTTLE_QUEUE_CAPACITY,
{
}

/// The pending throttle commands, in enqueue order, plus the slot that
/// remembers the most recently enqueued command.
pub struct ThrottleControl {
    queue: VecDeque<Throttle>,
    last_command: Throttle,
}

impl View for ThrottleControl {
    type V = Seq<Throttle>;

    /// The pending commands, oldest first.
    closed spec fn view(&self) -> Seq<Throttle> {
        self.queue@
    }
}

impl ThrottleControl {
    /// The most recently enqueued command, whether or not it was
    /// deduplicated into the queue.
    pub closed spec fn last_spec(&self) -> Throttle {
        self.last_command
    }

    /// The invariant every operation preserves: no adjacent duplicates,
    /// and never more pending commands than the fixed capacity.
    pub open spec fn wf(&self) -> bool {
        &&& no_adjacent_dups(self@)
        &&& self@.len() <= THROTTLE_QUEUE_CAPACITY
    }

    /// Appends a command unless it equals the current queue tail,
    /// evicting the oldest pending command first when the queue is
    /// full, and records it as the last command in every case.
    pub fn enqueue(&mut self, throttle: Throttle)
        ensures
            final(self)@ == enqueue_spec(old(self)@, throttle),
            final(self).last_spec() == throttle,
            old(self).wf() ==> final(self).wf(),
    {
        if self.queue.len() > 0 {
            let tail = &self.queue[self.queue.len() - 1];
            if *tail != throttle {
                if self.queue.len() >= THROTTLE_QUEUE_CAPACITY {
                    self.queue.pop_front();
                }
                self.queue.push_back(throttle.clone());
            }
        } else {
            self.queue.push_back(throttle.clone());
        }
        self.last_command = throttle;
        proof {
            if old(self)@.len() >= THROTTLE_QUEUE_CAPACITY && !(old(self)@.len() > 0 && old(
                self,
            )@.last() == throttle) {
                assert(self@ =~= old(self)@.skip(1).push(throttle));
            }
            if old(self).wf() {
                lemma_enqueue_wf(old(self)@, throttle);
            }
        }
    }

    /// Removes and returns the oldest pending command, if any.
    pub fn dequeue(&mut self) -> (r: Option<Throttle>)
        ensures
            old(self)@.len() == 0 ==> r is None && final(self)@ == old(self)@,
            old(self)@.len() > 0 ==> r == Some(old(self)@[0]) && final(self)@ == old(
                self,
            )@.skip(1),
            final(self).last_spec() == old(self).last_spec(),
            old(self).wf() ==> final(self).wf(),
    {
        let r = self.queue.pop_front();
        proof {
            if old(self)@.len() > 0 {
                assert(self@ =~= old(self)@.skip(1));
            }
        }
        r
    }

    /// The most recently enqueued command: what the control currently
    /// shows, independent of what has been transmitted.
    pub fn last(&self) -> (r: &Throttle)
        ensures
            *r == self.last_spec(),
    {
        &self.last_command
    }

    /// Removes every pending command at once, in enqueue order. A
    /// draining consumer forwards each returned command to the command
    /// bridge with a non-blocking send.
    pub fn drain(&mut self) -> (r: Vec<Throttle>)
        ensures
            r@ == old(self)@,
            final(self)@ == Seq::<Throttle>::empty(),
            final(self).last_spec() == old(self).last_spec(),
            final(self).wf(),
    {
        let mut out: Vec<Throttle> = Vec::new();
        loop
            invariant
                out@ + self.queue@ == old(self)@,
                self.last_command == old(self).last_command,
            decreases self.queue@.len(),
        {
            match self.queue.pop_front() {
                Some(cmd) => {
                    out.push(cmd);
                    proof {
                        assert(out@ + self.queue@ =~= old(self)@);
                    }
                },
                None => {
                    proof {
                        assert(out@ =~= old(self)@);
                    }
                    return out;
                },
            }
        }
    }
}

impl Default for ThrottleControl {
    /// An empty queue whose last-command slot holds the neutral command.
    fn default() -> (r: ThrottleControl)
        ensures
            r@ == Seq::<Throttle>::empty(),
            r.last_spec() == (Throttle { pitch: 0i16, roll: 0i16, yaw: 0i16, vertical: 0i16 }),
            r.wf(),
    {
        ThrottleControl {
            queue: VecDeque::with_capacity(THROTTLE_QUEUE_CAPACITY),
            last_command: Throttle::default(),
        }
    }
}

} // verus!
