//! The failures the pipeline reports.

use vstd::prelude::*;
use vstd::string::StringExecFns;

verus! {

/// Why an operation of the pipeline did not succeed.
#[derive(Debug)]
pub enum AppError {
    /// A buffer or a configuration was asked for with parameters that cannot work.
    ConfigError,
    /// The receiver of the window channel is gone.
    SampleSendError,
    /// An event could not be published; `r` says why.
    ProcessingError { r: String },
    /// The classification model gave no usable answer; `r` says why.
    InferenceError { r: String },
}

impl AppError {
    /// The text a reader of a log sees for this error.
    pub open spec fn message_text(self) -> Seq<char> {
        match self {
            AppError::ConfigError => "Invalid configuration"@,
            AppError::SampleSendError => "Error sending sample"@,
            AppError::ProcessingError { r } => "Error processing sample: "@ + r@,
            AppError::InferenceError { r } => "Inference failed: "@ + r@,
        }
    }

    /// Renders the error as text.
    pub fn to_string(&self) -> (text: String)
        ensures
            text@ == self.message_text(),
    {
        match self {
            AppError::ConfigError => String::from_str("Invalid configuration"),
            AppError::SampleSendError => String::from_str("Error sending sample"),
            AppError::ProcessingError { r } => {
                String::from_str("Error processing sample: ").concat(r.as_str())
            },
            AppError::InferenceError { r } => String::from_str("Inference failed: ").concat(
                r.as_str(),
            ),
        }
    }
}

} // verus!
