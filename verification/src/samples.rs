//! A buffer that keeps the latest samples.

use vstd::prelude::*;

verus! {

/// Keeps the latest `N` items in the order they came in.
pub struct SampleBuf<T, const N: usize> {
    samples: Vec<T>,
}

impl<T, const N: usize> View for SampleBuf<T, N> {
    type V = Seq<T>;

    closed spec fn view(&self) -> Seq<T> {
        self.samples@
    }
}

/// `samples` after one more came in, where at most `limit` are kept: the
/// new one stands last, and the oldest has left if there was no room.
pub open spec fn after_insert<T>(samples: Seq<T>, sample: T, limit: nat) -> Seq<T> {
    if limit == 0 {
        samples
    } else if samples.len() < limit {
        samples.push(sample)
    } else {
        samples.skip(1).push(sample)
    }
}

impl<T, const N: usize> SampleBuf<T, N> {
    /// No more than `N` items are kept.
    pub open spec fn wf(&self) -> bool {
        self@.len() <= N
    }

    /// An empty buffer.
    pub fn new() -> (buf: Self)
        ensures
            buf.wf(),
            buf@ == Seq::<T>::empty(),
    {
        SampleBuf { samples: Vec::new() }
    }

    /// Takes one more item; the oldest leaves once `N` are kept.
    pub fn insert(&mut self, sample: T)
        requires
            old(self).wf(),
        ensures
            final(self).wf(),
            final(self)@ == after_insert(old(self)@, sample, N as nat),
    {
        if N == 0 {
            return;
        }
        if self.samples.len() == N {
            let _ = self.samples.remove(0);
        }
        self.samples.push(sample);
        proof {
            assert(self.samples@ =~= after_insert(old(self)@, sample, N as nat));
        }
    }

    /// The number of items kept.
    pub fn len(&self) -> (n: usize)
        ensures
            n == self@.len(),
    {
        self.samples.len()
    }

    /// The item at place `i`, the oldest being at place 0.
    pub fn get(&self, i: usize) -> (sample: &T)
        requires
            i < self@.len(),
        ensures
            *sample == self@[i as int],
    {
        &self.samples[i]
    }

    /// The items kept, oldest first.
    pub fn as_slice(&self) -> (samples: &[T])
        ensures
            samples@ == self@,
    {
        self.samples.as_slice()
    }
}

impl<T, const N: usize> Default for SampleBuf<T, N> {
    fn default() -> (buf: Self)
        ensures
            buf.wf(),
            buf@ == Seq::<T>::empty(),
    {
        SampleBuf::new()
    }
}

} // verus!
