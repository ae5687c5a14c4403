//! What the model says of a window, as it is stored.

use vstd::prelude::*;
use vstd::std_specs::convert::FromSpecImpl;
use crate::ble::model::DetectionState;

verus! {

/// The key of a stored sample.
pub type SampleID = i32;

/// The label of a window: how the device moves relative to the detector.
#[derive(Debug, Clone, Copy, PartialEq, Eq, Structural)]
pub enum ModelResult {
    Stationary,
    /// The distance grows.
    MovingAway,
    /// The distance shrinks.
    MovingCloser,
    /// Nothing can be said, as when the device is hidden or was lost for a moment.
    Unknown,
}

impl ModelResult {
    /// The label that is stored as `code`: 0, 1 and 2 are the three known
    /// movements, every other number is `Unknown`.
    pub open spec fn of_code(code: i32) -> ModelResult {
        if code == 0 {
            ModelResult::Stationary
        } else if code == 1 {
            ModelResult::MovingAway
        } else if code == 2 {
            ModelResult::MovingCloser
        } else {
            ModelResult::Unknown
        }
    }

    /// The number a label is stored as.
    pub open spec fn code(self) -> i32 {
        match self {
            ModelResult::Stationary => 0,
            ModelResult::MovingAway => 1,
            ModelResult::MovingCloser => 2,
            ModelResult::Unknown => 3,
        }
    }

    /// The label that stands for what the classifier said.
    pub open spec fn of_state(state: DetectionState) -> ModelResult {
        match state {
            DetectionState::Stationary => ModelResult::Stationary,
            DetectionState::MovingAway => ModelResult::MovingAway,
            DetectionState::MovingCloser => ModelResult::MovingCloser,
            DetectionState::Unknown => ModelResult::Unknown,
        }
    }

    /// Storing a label and reading it back gives the label again.
    pub proof fn lemma_code_round_trip(self)
        ensures
            ModelResult::of_code(self.code()) == self,
    {
    }
}

impl Default for ModelResult {
    fn default() -> (label: Self)
        ensures
            label == ModelResult::Unknown,
    {
        ModelResult::Unknown
    }
}

impl From<i32> for ModelResult {
    fn from(value: i32) -> (label: Self) {
        match value {
            0 => ModelResult::Stationary,
            1 => ModelResult::MovingAway,
            2 => ModelResult::MovingCloser,
            _ => ModelResult::Unknown,
        }
    }
}

impl FromSpecImpl<i32> for ModelResult {
    open spec fn obeys_from_spec() -> bool {
        true
    }

    open spec fn from_spec(value: i32) -> ModelResult {
        ModelResult::of_code(value)
    }
}

impl From<ModelResult> for i32 {
    fn from(label: ModelResult) -> (code: i32) {
        match label {
            ModelResult::Stationary => 0,
            ModelResult::MovingAway => 1,
            ModelResult::MovingCloser => 2,
            ModelResult::Unknown => 3,
        }
    }
}

impl FromSpecImpl<ModelResult> for i32 {
    open spec fn obeys_from_spec() -> bool {
        true
    }

    open spec fn from_spec(label: ModelResult) -> i32 {
        label.code()
    }
}

impl From<DetectionState> for ModelResult {
    fn from(state: DetectionState) -> (label: Self) {
        match state {
            DetectionState::Stationary => ModelResult::Stationary,
            DetectionState::MovingAway => ModelResult::MovingAway,
            DetectionState::MovingCloser => ModelResult::MovingCloser,
            DetectionState::Unknown => ModelResult::Unknown,
        }
    }
}

impl FromSpecImpl<DetectionState> for ModelResult {
    open spec fn obeys_from_spec() -> bool {
        true
    }

    open spec fn from_spec(state: DetectionState) -> ModelResult {
        ModelResult::of_state(state)
    }
}

} // verus!
