//! A fixed-capacity buffer that always holds the most recent readings.
//!
//! The buffer fills up to its capacity and from then on every push evicts the
//! oldest reading, so that its contents are a window sliding over the stream.

use vstd::prelude::*;
use crate::errors::AppError;

verus! {

/// The window of capacity `capacity` after `value` has arrived.
///
/// Below capacity the value is appended; at capacity the oldest value leaves first.
pub open spec fn pushed<T>(window: Seq<T>, capacity: nat, value: T) -> Seq<T> {
    if window.len() < capacity {
        window.push(value)
    } else {
        window.subrange(1, window.len() as int).push(value)
    }
}

/// The window after all of `values` have arrived, in order.
pub open spec fn pushed_all<T>(window: Seq<T>, capacity: nat, values: Seq<T>) -> Seq<T>
    decreases values.len(),
{
    if values.len() == 0 {
        window
    } else {
        pushed(pushed_all(window, capacity, values.drop_last()), capacity, values.last())
    }
}

/// The last `capacity` values of `history`, or all of it if it is shorter.
pub open spec fn latest<T>(history: Seq<T>, capacity: nat) -> Seq<T> {
    if history.len() <= capacity {
        history
    } else {
        history.subrange(history.len() - capacity, history.len() as int)
    }
}

/// Pushing any run of readings leaves the latest `capacity` of everything the
/// window has seen, in arrival order.
pub proof fn lemma_pushed_all_is_latest<T>(window: Seq<T>, capacity: nat, values: Seq<T>)
    requires
        capacity > 0,
        window.len() <= capacity,
    ensures
        pushed_all(window, capacity, values) == latest(window + values, capacity),
    decreases values.len(),
{
    if values.len() == 0 {
        assert(window + values =~= window);
    } else {
        let earlier = values.drop_last();
        lemma_pushed_all_is_latest(window, capacity, earlier);
        assert(window + values =~= (window + earlier).push(values.last()));
        assert(pushed(pushed_all(window, capacity, earlier), capacity, values.last()) =~= latest(
            window + values,
            capacity,
        ));
    }
}

/// Sliding-window correctness: once at least `capacity` readings have been
/// pushed, whatever the window held before, it has length `capacity` and is
/// exactly the last `capacity` pushed readings in push order.
pub proof fn lemma_sliding_window<T>(window: Seq<T>, capacity: nat, values: Seq<T>)
    requires
        capacity > 0,
        window.len() <= capacity,
        values.len() >= capacity,
    ensures
        pushed_all(window, capacity, values).len() == capacity,
        pushed_all(window, capacity, values) == values.subrange(
            values.len() - capacity,
            values.len() as int,
        ),
{
    lemma_pushed_all_is_latest(window, capacity, values);
    assert(latest(window + values, capacity) =~= values.subrange(
        values.len() - capacity,
        values.len() as int,
    ));
}

/// Once full, always full: no run of pushes makes a full window shorter.
pub proof fn lemma_full_stays_full<T>(window: Seq<T>, capacity: nat, values: Seq<T>)
    requires
        capacity > 0,
        window.len() == capacity,
    ensures
        pushed_all(window, capacity, values).len() == capacity,
{
    lemma_pushed_all_is_latest(window, capacity, values);
}

/// A circular store of the most recent readings.
///
/// Its view is the live contents, oldest first.
pub struct RingBuffer<T> {
    buffer: Vec<T>,
    /// The slot the next reading is written to.
    write_idx: usize,
    /// How many slots hold a live reading.
    count: usize,
    capacity: usize,
}

impl<T> View for RingBuffer<T> {
    type V = Seq<T>;

    closed spec fn view(&self) -> Seq<T> {
        Seq::new(self.count as nat, |i: int| self.buffer@[self.slot(i)])
    }
}

impl<T> RingBuffer<T> {
    /// The slot that holds the `i`-th oldest live reading.
    spec fn slot(&self, i: int) -> int {
        if self.count < self.capacity {
            i
        } else if self.write_idx + i >= self.capacity {
            self.write_idx + i - self.capacity
        } else {
            self.write_idx + i
        }
    }

    /// The number of readings the buffer holds when it is full.
    pub closed spec fn capacity(&self) -> nat {
        self.capacity as nat
    }

    /// The representation is consistent: the store has `capacity` slots, the
    /// cursor and the fill counter are in range, and a buffer that has never
    /// been full has been written from slot 0 on.
    pub closed spec fn wf(&self) -> bool {
        &&& self.capacity > 0
        &&& self.buffer@.len() == self.capacity
        &&& self.write_idx < self.capacity
        &&& self.count <= self.capacity
        &&& self.count < self.capacity ==> self.write_idx == self.count
    }

    /// A well-formed buffer never holds more than its capacity.
    pub proof fn lemma_len_bounded(&self)
        requires
            self.wf(),
        ensures
            self@.len() <= self.capacity(),
            self.capacity() > 0,
            self.capacity() <= usize::MAX,
    {
    }
}

impl<T: Copy + Default> RingBuffer<T> {
    /// Creates an empty buffer for `capacity` readings.
    ///
    /// A buffer without room for a single reading is refused.
    pub fn new(capacity: usize) -> (made: Result<Self, AppError>)
        ensures
            capacity == 0 <==> made is Err,
            made matches Err(e) ==> e == AppError::ConfigError,
            made matches Ok(buf) ==> buf.wf() && buf.capacity() == capacity && buf@ == Seq::<
                T,
            >::empty(),
    {
        if capacity == 0 {
            return Err(AppError::ConfigError);
        }
        let mut buffer: Vec<T> = Vec::with_capacity(capacity);
        let filler = T::default();
        let mut i: usize = 0;
        while i < capacity
            invariant
                i <= capacity,
                buffer@.len() == i,
            decreases capacity - i,
        {
            buffer.push(filler);
            i = i + 1;
        }
        let buf = RingBuffer { buffer, write_idx: 0, count: 0, capacity };
        assert(buf@ =~= Seq::<T>::empty());
        Ok(buf)
    }

    /// Stores `value` as the newest reading.
    ///
    /// A full buffer gives up its oldest reading, which is returned.
    pub fn push(&mut self, value: T) -> (evicted: Option<T>)
        requires
            old(self).wf(),
        ensures
            final(self).wf(),
            final(self).capacity() == old(self).capacity(),
            final(self)@ == pushed(old(self)@, old(self).capacity(), value),
            evicted == if old(self)@.len() < old(self).capacity() {
                None
            } else {
                Some(old(self)@[0])
            },
    {
        let full = self.count == self.capacity;
        let evicted = if full {
            Some(self.buffer[self.write_idx])
        } else {
            None
        };
        self.buffer.set(self.write_idx, value);
        self.write_idx = if self.write_idx + 1 == self.capacity {
            0
        } else {
            self.write_idx + 1
        };
        if !full {
            self.count = self.count + 1;
        }
        assert(self@ =~= pushed(old(self)@, old(self).capacity(), value));
        evicted
    }

    /// Whether the buffer holds `capacity` readings.
    ///
    /// Pushing never makes a full buffer less than full; only `clear` does.
    pub fn is_full(&self) -> (full: bool)
        requires
            self.wf(),
        ensures
            full == (self@.len() == self.capacity()),
    {
        self.count == self.capacity
    }

    /// Whether the buffer holds no reading.
    pub fn is_empty(&self) -> (empty: bool)
        requires
            self.wf(),
        ensures
            empty == (self@.len() == 0),
    {
        self.count == 0
    }

    /// The live readings, oldest first.
    pub fn window_data(&self) -> (data: Vec<T>)
        requires
            self.wf(),
        ensures
            data@ == self@,
    {
        let mut data: Vec<T> = Vec::with_capacity(self.count);
        let mut idx: usize = if self.count < self.capacity {
            0
        } else {
            self.write_idx
        };
        let mut taken: usize = 0;
        while taken < self.count
            invariant
                self.wf(),
                taken <= self.count,
                data@.len() == taken,
                idx < self.capacity,
                taken < self.count ==> idx == self.slot(taken as int),
                forall|k: int| 0 <= k < taken ==> data@[k] == self@[k],
            decreases self.count - taken,
        {
            data.push(self.buffer[idx]);
            idx = if idx + 1 == self.capacity {
                0
            } else {
                idx + 1
            };
            taken = taken + 1;
        }
        assert(data@ =~= self@);
        data
    }

    /// Reading is repeatable: any two snapshots taken of one buffer, with no
    /// push in between, hold the same readings.
    pub proof fn lemma_window_data_idempotent(&self, first: Vec<T>, second: Vec<T>)
        requires
            self.wf(),
            call_ensures(Self::window_data, (self,), first),
            call_ensures(Self::window_data, (self,), second),
        ensures
            first@ == second@,
    {
    }

    /// Forgets every reading; the capacity stays.
    pub fn clear(&mut self)
        requires
            old(self).wf(),
        ensures
            final(self).wf(),
            final(self).capacity() == old(self).capacity(),
            final(self)@ == Seq::<T>::empty(),
    {
        self.write_idx = 0;
        self.count = 0;
        assert(self@ =~= Seq::<T>::empty());
    }

    /// How many readings still fit before a push starts to evict.
    pub fn available_space(&self) -> (space: usize)
        requires
            self.wf(),
        ensures
            space == self.capacity() - self@.len(),
    {
        self.capacity - self.count
    }
}

} // verus!
