//! The failures of a sink and of its configuration.

use vstd::prelude::*;
use vstd::string::*;

verus! {

/// Why a configuration or a sink refused its input.
///
/// Every failure reaches the immediate caller as one of these kinds. None
/// is retried or dropped by the sink itself: whether to stop the run, skip
/// the record or try again is up to the caller.
#[derive(Debug, PartialEq, Eq)]
pub enum SinkError {
    /// Malformed or incomplete configuration input; `detail` says what was
    /// wrong with it.
    InvalidConfig { detail: String },
    /// A record that is not a pair of byte strings; `got` is its printed
    /// form.
    InvalidRecord { got: String },
    /// The broker client could not be constructed; `reason` is the client's
    /// own account.
    SinkUnavailable { reason: String },
    /// The broker client refused to buffer a record; `reason` is the
    /// client's own account.
    EnqueueFailed { reason: String },
}

impl SinkError {
    /// The text of [`SinkError::message`].
    pub open spec fn message_text(self) -> Seq<char> {
        match self {
            SinkError::InvalidConfig { detail } => detail@,
            SinkError::InvalidRecord { got } =>
                "KafkaOutput requires a `(key, payload)` 2-tuple of bytes as input to producer; got `"@
                + got@ + "` instead"@,
            SinkError::SinkUnavailable { reason } => "Producer creation error: "@ + reason@,
            SinkError::EnqueueFailed { reason } => "Failed to enqueue: "@ + reason@,
        }
    }

    /// A sentence for the operator: the shape that was expected and the
    /// value that came, or the step that failed and the client's account.
    pub fn message(&self) -> (text: String)
        ensures
            text@ == self.message_text(),
    {
        match self {
            SinkError::InvalidConfig { detail } => detail.clone(),
            SinkError::InvalidRecord { got } => {
                let mut text = String::from_str(
                    "KafkaOutput requires a `(key, payload)` 2-tuple of bytes as input to producer; got `",
                );
                text.append(got.as_str());
                text.append("` instead");
                text
            },
            SinkError::SinkUnavailable { reason } => {
                let mut text = String::from_str("Producer creation error: ");
                text.append(reason.as_str());
                text
            },
            SinkError::EnqueueFailed { reason } => {
                let mut text = String::from_str("Failed to enqueue: ");
                text.append(reason.as_str());
                text
            },
        }
    }
}

} // verus!
