//! Bounded sample queues shared by the decoder and the output callback.
//!
//! `SampleQueue` is the playback FIFO: the decoder appends at most as many
//! samples as fit under the capacity, the output callback takes them from the
//! front.  `SampleRing` keeps the most recent samples for the visualizer and
//! drops the oldest one when it is full.

use vstd::prelude::*;
use std::collections::VecDeque;

verus! {

broadcast use vstd::std_specs::vecdeque::group_vec_dequeue_axioms;

/// What `push_samples_bounded` accepts: as many samples as fit.
pub open spec fn accepted_count(queued: nat, capacity: nat, offered: nat) -> nat {
    if capacity <= queued {
        0
    } else if offered <= capacity - queued {
        offered
    } else {
        (capacity - queued) as nat
    }
}

/// A FIFO of samples that never holds more than `max_samples` items.
pub struct SampleQueue<T> {
    items: VecDeque<T>,
    max_samples: usize,
}

impl<T> View for SampleQueue<T> {
    type V = Seq<T>;

    closed spec fn view(&self) -> Seq<T> {
        self.items@
    }
}

impl<T> SampleQueue<T> {
    /// The largest number of samples the queue holds.
    pub closed spec fn capacity(&self) -> nat {
        self.max_samples as nat
    }

    /// The queue holds no more samples than its capacity.
    pub open spec fn wf(&self) -> bool {
        self@.len() <= self.capacity()
    }

    /// An empty queue that holds at most `max_samples` samples.
    pub fn new(max_samples: usize) -> (q: Self)
        ensures
            q.wf(),
            q@ == Seq::<T>::empty(),
            q.capacity() == max_samples,
    {
        SampleQueue { items: VecDeque::with_capacity(max_samples), max_samples }
    }

    /// Number of queued samples.
    pub fn len(&self) -> (n: usize)
        ensures
            n == self@.len(),
    {
        self.items.len()
    }

    /// Capacity in samples.
    pub fn max_samples(&self) -> (n: usize)
        ensures
            n == self.capacity(),
    {
        self.max_samples
    }

    /// Take the oldest sample, if any.
    pub fn pop_front(&mut self) -> (r: Option<T>)
        requires
            old(self).wf(),
        ensures
            final(self).wf(),
            final(self).capacity() == old(self).capacity(),
            old(self)@.len() == 0 ==> r is None && final(self)@ == old(self)@,
            old(self)@.len() > 0 ==> r == Some(old(self)@[0]) && final(self)@ == old(self)@.drop_first(),
    {
        self.items.pop_front()
    }

    /// Drop every queued sample.
    pub fn clear(&mut self)
        ensures
            final(self).wf(),
            final(self).capacity() == old(self).capacity(),
            final(self)@ == Seq::<T>::empty(),
    {
        self.items.clear();
    }
}

impl<T: Copy> SampleQueue<T> {
    /// Push up to `capacity - len` samples from the front of `samples` and
    /// return how many were taken; the caller offers the rest again later.
    pub fn push_samples_bounded(&mut self, samples: &[T]) -> (pushed: usize)
        requires
            old(self).wf(),
        ensures
            final(self).wf(),
            final(self).capacity() == old(self).capacity(),
            pushed == accepted_count(old(self)@.len(), old(self).capacity(), samples@.len()),
            final(self)@ == old(self)@ + samples@.take(pushed as int),
    {
        let available = self.max_samples - self.items.len();
        let push_count = if samples.len() < available { samples.len() } else { available };
        let ghost start = self.items@;
        let mut i: usize = 0;
        while i < push_count
            invariant
                i <= push_count,
                push_count <= samples@.len(),
                push_count <= available,
                available == self.max_samples - start.len(),
                start.len() <= self.max_samples,
                self.items@ == start + samples@.take(i as int),
            decreases push_count - i,
        {
            self.items.push_back(samples[i]);
            assert(samples@.take(i as int).push(samples@[i as int]) =~= samples@.take(i + 1));
            i = i + 1;
        }
        push_count
    }
}

/// The ring after one push: the new sample goes to the back and, when the
/// ring is full, the oldest one leaves.  A ring of capacity zero keeps nothing.
pub open spec fn ring_push<T>(s: Seq<T>, x: T, max: nat) -> Seq<T> {
    if max == 0 {
        s
    } else if s.len() >= max {
        s.drop_first().push(x)
    } else {
        s.push(x)
    }
}

/// The ring after pushing every sample of `xs` in order.
pub open spec fn ring_push_all<T>(s: Seq<T>, xs: Seq<T>, max: nat) -> Seq<T>
    decreases xs.len(),
{
    if xs.len() == 0 {
        s
    } else {
        ring_push(ring_push_all(s, xs.drop_last(), max), xs.last(), max)
    }
}

/// The last `n` items of `s` (all of them when `s` is shorter).
pub open spec fn last_n<T>(s: Seq<T>, n: nat) -> Seq<T> {
    if s.len() <= n {
        s
    } else {
        s.subrange(s.len() - n, s.len() as int)
    }
}

/// Keeps the most recent `max_samples` samples, oldest first.
pub struct SampleRing<T> {
    items: VecDeque<T>,
    max_samples: usize,
}

impl<T> View for SampleRing<T> {
    type V = Seq<T>;

    closed spec fn view(&self) -> Seq<T> {
        self.items@
    }
}

impl<T> SampleRing<T> {
    /// The largest number of samples the ring keeps.
    pub closed spec fn capacity(&self) -> nat {
        self.max_samples as nat
    }

    /// The ring holds no more samples than its capacity.
    pub open spec fn wf(&self) -> bool {
        self@.len() <= self.capacity()
    }

    /// An empty ring keeping at most `max_samples` samples.
    pub fn new(max_samples: usize) -> (r: Self)
        ensures
            r.wf(),
            r@ == Seq::<T>::empty(),
            r.capacity() == max_samples,
    {
        SampleRing { items: VecDeque::with_capacity(max_samples), max_samples }
    }

    /// Number of kept samples.
    pub fn len(&self) -> (n: usize)
        ensures
            n == self@.len(),
    {
        self.items.len()
    }

    /// Record one sample, dropping the oldest when the ring is full.
    pub fn push(&mut self, sample: T)
        requires
            old(self).wf(),
        ensures
            final(self).wf(),
            final(self).capacity() == old(self).capacity(),
            final(self)@ == ring_push(old(self)@, sample, old(self).capacity()),
    {
        if self.max_samples == 0 {
            return;
        }
        if self.items.len() >= self.max_samples {
            self.items.pop_front();
        }
        self.items.push_back(sample);
    }

    /// Forget every kept sample.
    pub fn clear(&mut self)
        ensures
            final(self).wf(),
            final(self).capacity() == old(self).capacity(),
            final(self)@ == Seq::<T>::empty(),
    {
        self.items.clear();
    }
}

impl<T: Copy> SampleRing<T> {
    /// The kept samples, oldest first.
    pub fn to_vec(&self) -> (v: Vec<T>)
        ensures
            v@ == self@,
    {
        let mut v: Vec<T> = Vec::new();
        let n = self.items.len();
        let mut i: usize = 0;
        while i < n
            invariant
                i <= n,
                n == self@.len(),
                v@ == self@.take(i as int),
            decreases n - i,
        {
            v.push(self.items[i]);
            assert(self@.take(i as int).push(self@[i as int]) =~= self@.take(i + 1));
            i = i + 1;
        }
        assert(self@.take(n as int) =~= self@);
        v
    }
}

/// Law: a ring fed one sample at a time holds exactly the most recent
/// `capacity` samples of everything it has seen, oldest first.
pub proof fn lemma_ring_keeps_latest<T>(s: Seq<T>, xs: Seq<T>, max: nat)
    requires
        s.len() <= max,
    ensures
        ring_push_all(s, xs, max) == last_n(s + xs, max),
    decreases xs.len(),
{
    if xs.len() == 0 {
        assert(s + xs =~= s);
    } else {
        let prev = ring_push_all(s, xs.drop_last(), max);
        lemma_ring_keeps_latest(s, xs.drop_last(), max);
        let all = s + xs;
        let before = s + xs.drop_last();
        assert(before =~= all.drop_last());
        assert(all.last() == xs.last());
        if max == 0 {
            assert(s.len() == 0);
            assert(last_n(all, max) =~= Seq::<T>::empty());
            assert(last_n(before, max) =~= Seq::<T>::empty());
        } else if before.len() < max {
            assert(prev == before);
            assert(ring_push(prev, xs.last(), max) == before.push(xs.last()));
            assert(before.push(xs.last()) =~= all);
        } else {
            assert(prev =~= before.subrange(before.len() - max, before.len() as int));
            assert(prev.len() == max);
            assert(prev.drop_first().push(xs.last()) =~= all.subrange(all.len() - max, all.len() as int));
        }
    }
}

} // verus!
