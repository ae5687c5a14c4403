//! A stored sample: a window, what the model said of it, and what a person said.

use vstd::prelude::*;
use crate::domain::value_objects::{ModelResult, SampleID};

verus! {

/// One sample with its labels. `D` is the form in which the window is kept.
pub struct SampleAggregate<D> {
    /// The key under which the sample is stored; 0 for a sample not stored yet.
    pub id: SampleID,
    pub device: String,
    pub data: D,
    /// The label the model gave.
    pub predict: ModelResult,
    /// The label a person gave; `Unknown` until then.
    pub actual: ModelResult,
    pub created_at: String,
}

impl<D: Default> Default for SampleAggregate<D> {
    /// A sample that is not stored, of no device, with both labels unknown.
    fn default() -> (sample: Self)
        ensures
            sample.id == 0,
            sample.device@.len() == 0,
            call_ensures(D::default, (), sample.data),
            sample.predict == ModelResult::Unknown,
            sample.actual == ModelResult::Unknown,
            sample.created_at@.len() == 0,
    {
        SampleAggregate {
            id: 0,
            device: String::new(),
            data: D::default(),
            predict: ModelResult::Unknown,
            actual: ModelResult::Unknown,
            created_at: String::new(),
        }
    }
}

impl<D> SampleAggregate<D> {
    /// A sample made of the given parts.
    pub fn new(
        id: SampleID,
        device: String,
        data: D,
        predict: ModelResult,
        actual: ModelResult,
        created_at: String,
    ) -> (sample: Self)
        ensures
            sample == (SampleAggregate { id, device, data, predict, actual, created_at }),
    {
        SampleAggregate { id, device, data, predict, actual, created_at }
    }

    /// Replaces the window of the sample.
    pub fn add_sample(&mut self, s: D)
        ensures
            *final(self) == (SampleAggregate { data: s, ..*old(self) }),
    {
        self.data = s;
    }

    /// Sets the label a person gave.
    pub fn change_actual(&mut self, a: ModelResult)
        ensures
            *final(self) == (SampleAggregate { actual: a, ..*old(self) }),
    {
        self.actual = a;
    }

    /// Whether the model's label is the one a person gave.
    pub fn is_correct(&self) -> (correct: bool)
        ensures
            correct == (self.predict == self.actual),
    {
        self.predict == self.actual
    }
}

} // verus!
