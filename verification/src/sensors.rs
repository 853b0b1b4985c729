//! Fixed-capacity rolling window over decoded telemetry samples.
//!
//! Presentation drains the telemetry channel into this buffer and reads
//! the whole window for plotting, or the newest sample for orientation.

use vstd::prelude::*;

use std::collections::vec_deque::Iter;
use std::collections::VecDeque;

verus! {

/// Ring buffer for sensor data. Insertion order is temporal arrival
/// order; once the fixed capacity is reached, each push evicts exactly
/// the oldest sample, so the length never exceeds the capacity. A
/// zero-capacity buffer can hold nothing and discards every sample.
pub struct SensorBuffer<T> {
    inner: VecDeque<T>,
    capacity: usize,
}

/// What one push does to the window `s` of a buffer with capacity `cap`:
/// the sample is appended, after the oldest sample is evicted if the
/// window is full.
pub open spec fn push_spec<T>(s: Seq<T>, cap: nat, item: T) -> Seq<T> {
    if s.len() < cap {
        s.push(item)
    } else if cap == 0 {
        s
    } else {
        s.skip(1).push(item)
    }
}

/// The window after pushing each of `items` in order into a buffer with
/// capacity `cap` that started empty.
pub open spec fn pushed_all<T>(cap: nat, items: Seq<T>) -> Seq<T>
    decreases items.len(),
{
    if items.len() == 0 {
        Seq::<T>::empty()
    } else {
        push_spec(pushed_all(cap, items.drop_last()), cap, items.last())
    }
}

/// The window of a buffer fed `items` from empty is always the newest
/// suffix: all of `items` while they fit, and exactly the last `cap` of
/// them once they do not.
pub proof fn lemma_pushed_all_window<T>(cap: nat, items: Seq<T>)
    requires
        cap > 0,
    ensures
        items.len() <= cap ==> pushed_all(cap, items) == items,
        items.len() > cap ==> pushed_all(cap, items) == items.skip(items.len() - cap),
    decreases items.len(),
{
    if items.len() == 0 {
        assert(pushed_all(cap, items) =~= items);
    } else {
        let prefix = items.drop_last();
        lemma_pushed_all_window(cap, prefix);
        if prefix.len() < cap {
            assert(pushed_all(cap, items) =~= items);
        } else if prefix.len() == cap {
            assert(pushed_all(cap, items) =~= items.skip(items.len() - cap));
        } else {
            assert(pushed_all(cap, items) =~= items.skip(items.len() - cap));
        }
    }
}

/// Ring buffer ordering: pushing no more samples than the capacity
/// yields exactly those samples, in push order.
pub proof fn lemma_push_order<T>(cap: nat, items: Seq<T>)
    requires
        cap > 0,
        items.len() <= cap,
    ensures
        pushed_all(cap, items) == items,
{
    lemma_pushed_all_window(cap, items);
}

/// Ring buffer eviction: after pushing one more sample than the
/// capacity, the window is full and its oldest surviving sample is the
/// second one pushed.
pub proof fn lemma_eviction<T>(cap: nat, items: Seq<T>)
    requires
        cap > 0,
        items.len() == cap + 1,
    ensures
        pushed_all(cap, items).len() == cap,
        pushed_all(cap, items)[0] == items[1],
        pushed_all(cap, items) == items.skip(1),
{
    lemma_pushed_all_window(cap, items);
}

impl<T> View for SensorBuffer<T> {
    type V = Seq<T>;

    /// The buffered samples, oldest first.
    closed spec fn view(&self) -> Seq<T> {
        self.inner@
    }
}

impl<T> SensorBuffer<T> {
    /// The fixed capacity chosen at construction.
    pub closed spec fn cap(&self) -> nat {
        self.capacity as nat
    }

    /// The length bound that every operation preserves.
    pub open spec fn wf(&self) -> bool {
        self@.len() <= self.cap()
    }

    /// An empty buffer that will never hold more than `size` samples.
    pub fn new(size: usize) -> (r: SensorBuffer<T>)
        ensures
            r@ == Seq::<T>::empty(),
            r.cap() == size,
            r.wf(),
    {
        SensorBuffer { inner: VecDeque::with_capacity(size), capacity: size }
    }

    /// Appends a sample, evicting the oldest one first when the buffer
    /// is full (strict FIFO eviction).
    pub fn push(&mut self, item: T)
        requires
            old(self).wf(),
        ensures
            final(self)@ == push_spec(old(self)@, old(self).cap(), item),
            final(self).cap() == old(self).cap(),
            final(self).wf(),
    {
        if self.inner.len() < self.capacity {
            self.inner.push_back(item);
        } else if self.capacity > 0 {
            self.inner.pop_front();
            self.inner.push_back(item);
        }
        proof {
            assert(self@ =~= push_spec(old(self)@, old(self).cap(), item));
        }
    }

    /// Removes and returns the oldest sample, if any.
    pub fn pop(&mut self) -> (r: Option<T>)
        ensures
            old(self)@.len() == 0 ==> r is None && final(self)@ == old(self)@,
            old(self)@.len() > 0 ==> r == Some(old(self)@[0]) && final(self)@ == old(self)@.skip(
                1,
            ),
            final(self).cap() == old(self).cap(),
    {
        let r = self.inner.pop_front();
        proof {
            if old(self)@.len() > 0 {
                assert(self@ =~= old(self)@.skip(1));
            }
        }
        r
    }

    /// A non-destructive pass over the buffered samples, oldest to
    /// newest: the iterator yields exactly the current window, in order.
    pub fn iter(&self) -> (r: Iter<'_, T>)
        ensures
            vstd::std_specs::iter::IteratorSpec::remaining(&r) == self@.as_ref(),
    {
        self.inner.iter()
    }
}

} // verus!
