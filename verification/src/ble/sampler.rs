//! The sampler: one buffer per channel, one window per reading once warm.

use vstd::prelude::*;
use crate::ble::ring_buffer::{pushed, RingBuffer};
use crate::errors::AppError;

verus! {

/// Feeds readings into a sliding window and hands out the window whenever it
/// is full.
pub struct Sampler<T> {
    buffer: RingBuffer<T>,
}

impl<T> Sampler<T> {
    /// The readings currently in the window, oldest first.
    pub closed spec fn window(&self) -> Seq<T> {
        self.buffer@
    }

    /// The number of readings that make a window.
    pub closed spec fn window_size(&self) -> nat {
        self.buffer.capacity()
    }

    /// The buffer inside is well formed.
    pub closed spec fn wf(&self) -> bool {
        self.buffer.wf()
    }

    /// A well-formed sampler has room for a reading and never holds more than a window.
    pub proof fn lemma_window_bounded(&self)
        requires
            self.wf(),
        ensures
            0 < self.window_size(),
            self.window().len() <= self.window_size(),
    {
        self.buffer.lemma_len_bounded();
    }
}

impl<T: Copy + Default> Sampler<T> {
    /// A sampler with an empty window of `window_size` readings.
    pub fn new(window_size: usize) -> (made: Result<Self, AppError>)
        ensures
            window_size == 0 <==> made is Err,
            made matches Err(e) ==> e == AppError::ConfigError,
            made matches Ok(sampler) ==> sampler.wf() && sampler.window_size() == window_size
                && sampler.window() == Seq::<T>::empty(),
    {
        match RingBuffer::new(window_size) {
            Ok(buffer) => Ok(Sampler { buffer }),
            Err(e) => Err(e),
        }
    }

    /// Takes one reading and returns the window to be sent, if there is one.
    ///
    /// Nothing is handed out before the window is full; from then on every
    /// reading yields the refreshed window, so that consecutive windows overlap
    /// in all but one reading.
    pub fn feed(&mut self, val: T) -> (emitted: Option<Vec<T>>)
        requires
            old(self).wf(),
        ensures
            final(self).wf(),
            final(self).window_size() == old(self).window_size(),
            final(self).window() == pushed(old(self).window(), old(self).window_size(), val),
            emitted is Some <==> final(self).window().len() == final(self).window_size(),
            emitted matches Some(window) ==> window@ == final(self).window(),
    {
        self.buffer.push(val);
        if self.buffer.is_full() {
            Some(self.buffer.window_data())
        } else {
            None
        }
    }

    /// What a feed reports once its window has been offered to the channel:
    /// a window that could not be delivered is an error, and it is not retried.
    pub fn delivery_result(delivered: bool) -> (outcome: Result<(), AppError>)
        ensures
            delivered <==> outcome is Ok,
            outcome matches Err(e) ==> e == AppError::SampleSendError,
    {
        if delivered {
            Ok(())
        } else {
            Err(AppError::SampleSendError)
        }
    }
}

} // verus!
