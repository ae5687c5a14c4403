//! The detector: the sampling state of one device.

use vstd::prelude::*;
use crate::ble::ring_buffer::pushed;
use crate::ble::sampler::Sampler;
use crate::errors::AppError;

verus! {

/// The per-device unit of the pipeline. It samples; it does not classify.
pub struct Detector<T> {
    sampler: Sampler<T>,
}

impl<T> Detector<T> {
    /// The readings currently in the device's window, oldest first.
    pub closed spec fn window(&self) -> Seq<T> {
        self.sampler.window()
    }

    /// The number of readings that make a window.
    pub closed spec fn window_size(&self) -> nat {
        self.sampler.window_size()
    }

    /// The sampler inside is well formed.
    pub closed spec fn wf(&self) -> bool {
        self.sampler.wf()
    }

    /// A well-formed detector has room for a reading and never holds more than a window.
    pub proof fn lemma_window_bounded(&self)
        requires
            self.wf(),
        ensures
            0 < self.window_size(),
            self.window().len() <= self.window_size(),
    {
        self.sampler.lemma_window_bounded();
    }
}

impl<T: Copy + Default> Detector<T> {
    /// A detector with an empty window of `window_size` readings.
    pub fn new(window_size: usize) -> (made: Result<Self, AppError>)
        ensures
            window_size == 0 <==> made is Err,
            made matches Err(e) ==> e == AppError::ConfigError,
            made matches Ok(detector) ==> detector.wf() && detector.window_size() == window_size
                && detector.window() == Seq::<T>::empty(),
    {
        match Sampler::new(window_size) {
            Ok(sampler) => Ok(Detector { sampler }),
            Err(e) => Err(e),
        }
    }

    /// Takes one reading of the device and returns the window to be sent, if
    /// the window is full.
    pub fn process(&mut self, value: T) -> (emitted: Option<Vec<T>>)
        requires
            old(self).wf(),
        ensures
            final(self).wf(),
            final(self).window_size() == old(self).window_size(),
            final(self).window() == pushed(old(self).window(), old(self).window_size(), value),
            emitted is Some <==> final(self).window().len() == final(self).window_size(),
            emitted matches Some(window) ==> window@ == final(self).window(),
    {
        self.sampler.feed(value)
    }
}

} // verus!
