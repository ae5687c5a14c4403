//! A window that is full from the start.
//!
//! Unlike the ring buffer, this window begins with `capacity` default readings
//! and shifts by one with every push; it never reports a partial window.

use vstd::prelude::*;
use crate::ble::ring_buffer::pushed;

verus! {

/// The most recent `capacity` readings, padded with defaults at the old end.
///
/// Its view is the window, oldest first.
pub struct SlidingWindow<T> {
    buffer: Vec<T>,
    capacity: usize,
}

impl<T> View for SlidingWindow<T> {
    type V = Seq<T>;

    closed spec fn view(&self) -> Seq<T> {
        self.buffer@
    }
}

/// A window of `capacity` readings, each of them a default reading and all of
/// them the same.
pub open spec fn is_blank<T: Default>(window: Seq<T>, capacity: nat) -> bool {
    &&& window.len() == capacity
    &&& forall|i: int| 0 <= i < window.len() ==> call_ensures(T::default, (), #[trigger] window[i])
    &&& forall|i: int, j: int|
        0 <= i < window.len() && 0 <= j < window.len() ==> window[i] == window[j]
}

impl<T> SlidingWindow<T> {
    /// The length of the window.
    pub closed spec fn capacity(&self) -> nat {
        self.capacity as nat
    }

    /// The window has exactly `capacity` readings.
    pub closed spec fn wf(&self) -> bool {
        self.buffer@.len() == self.capacity
    }

    /// The view of a well-formed window has `capacity` readings.
    pub proof fn lemma_len(&self)
        requires
            self.wf(),
        ensures
            self@.len() == self.capacity(),
    {
    }
}

impl<T: Copy + Default> SlidingWindow<T> {
    /// `capacity` copies of the default reading.
    fn blank(capacity: usize) -> (buffer: Vec<T>)
        ensures
            is_blank(buffer@, capacity as nat),
    {
        let mut buffer: Vec<T> = Vec::with_capacity(capacity);
        let filler = T::default();
        let mut i: usize = 0;
        while i < capacity
            invariant
                i <= capacity,
                buffer@.len() == i,
                call_ensures(T::default, (), filler),
                forall|k: int| 0 <= k < i ==> buffer@[k] == filler,
            decreases capacity - i,
        {
            buffer.push(filler);
            i = i + 1;
        }
        buffer
    }

    /// A window of `capacity` default readings.
    pub fn new(capacity: usize) -> (window: Self)
        ensures
            window.wf(),
            window.capacity() == capacity,
            is_blank(window@, capacity as nat),
    {
        SlidingWindow { buffer: Self::blank(capacity), capacity }
    }

    /// Drops the oldest reading and appends `value` as the newest.
    ///
    /// A window of capacity 0 has no oldest reading to drop and takes no push.
    pub fn push(&mut self, value: T)
        requires
            old(self).wf(),
            old(self).capacity() > 0,
        ensures
            final(self).wf(),
            final(self).capacity() == old(self).capacity(),
            final(self)@ == pushed(old(self)@, old(self).capacity(), value),
    {
        self.buffer.remove(0);
        self.buffer.push(value);
        assert(self@ =~= pushed(old(self)@, old(self).capacity(), value));
    }

    /// The window, oldest reading first.
    pub fn window_data(&self) -> (data: Vec<T>)
        requires
            self.wf(),
        ensures
            data@ == self@,
    {
        let mut data: Vec<T> = Vec::with_capacity(self.capacity);
        let mut i: usize = 0;
        while i < self.buffer.len()
            invariant
                i <= self.buffer@.len(),
                data@ == self.buffer@.subrange(0, i as int),
            decreases self.buffer@.len() - i,
        {
            data.push(self.buffer[i]);
            assert(data@ =~= self.buffer@.subrange(0, i + 1));
            i = i + 1;
        }
        assert(data@ =~= self@);
        data
    }

    /// Puts the window back to `capacity` default readings.
    pub fn clear(&mut self)
        requires
            old(self).wf(),
        ensures
            final(self).wf(),
            final(self).capacity() == old(self).capacity(),
            is_blank(final(self)@, old(self).capacity()),
    {
        self.buffer = Self::blank(self.capacity);
    }
}

} // verus!
