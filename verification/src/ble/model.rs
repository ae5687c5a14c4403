//! The labels of the classification model.
//!
//! The model itself is a collaborator outside this library. It scores a window
//! for each class; this module turns the class it scored highest into a label.

use vstd::prelude::*;
use vstd::string::StringExecFns;
use crate::errors::AppError;

verus! {

/// How the tracked device moves relative to the detector.
#[derive(Debug, Clone, Copy, PartialEq, Eq, Structural)]
pub enum DetectionState {
    /// The device does not move.
    Stationary,
    /// The distance grows.
    MovingAway,
    /// The distance shrinks.
    MovingCloser,
    /// Nothing can be said, as when the device is hidden or was lost for a moment.
    Unknown,
}

impl DetectionState {
    /// The text shown for the state.
    pub open spec fn label(self) -> Seq<char> {
        match self {
            DetectionState::Stationary => "静止"@,
            DetectionState::MovingAway => "远离"@,
            DetectionState::MovingCloser => "靠近"@,
            DetectionState::Unknown => "Unknown"@,
        }
    }

    /// The state that the model's class `index` stands for, if it is one of
    /// the three classes the model knows.
    pub open spec fn of_class(index: int) -> Option<DetectionState> {
        if index == 0 {
            Some(DetectionState::Stationary)
        } else if index == 1 {
            Some(DetectionState::MovingAway)
        } else if index == 2 {
            Some(DetectionState::MovingCloser)
        } else {
            None
        }
    }

    /// Renders the state as text.
    pub fn to_string(&self) -> (text: String)
        ensures
            text@ == self.label(),
    {
        match self {
            DetectionState::Stationary => String::from_str("静止"),
            DetectionState::MovingAway => String::from_str("远离"),
            DetectionState::MovingCloser => String::from_str("靠近"),
            DetectionState::Unknown => String::from_str("Unknown"),
        }
    }

    /// Turns the class the model scored highest into a state.
    ///
    /// `best` is `None` when the model gave no scores at all. A class beyond
    /// the three known ones is an error, not `Unknown`.
    pub fn from_prediction(best: Option<usize>) -> (outcome: Result<DetectionState, AppError>)
        ensures
            match best {
                None => outcome matches Err(AppError::InferenceError { r }) && r@
                    == "无法确定预测类别"@,
                Some(index) => match DetectionState::of_class(index as int) {
                    Some(state) => outcome == Ok::<DetectionState, AppError>(state),
                    None => outcome matches Err(AppError::InferenceError { r }) && r@
                        == "未知状态"@,
                },
            },
    {
        match best {
            None => Err(AppError::InferenceError { r: String::from_str("无法确定预测类别") }),
            Some(0) => Ok(DetectionState::Stationary),
            Some(1) => Ok(DetectionState::MovingAway),
            Some(2) => Ok(DetectionState::MovingCloser),
            Some(_) => Err(AppError::InferenceError { r: String::from_str("未知状态") }),
        }
    }
}

} // verus!
