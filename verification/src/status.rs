use crate::json::rendered;
use crate::matching::{Failure, VerifyError};
use vstd::prelude::*;
use vstd::string::StringExecFns;

verus! {

impl Clone for VerifyError {
    /// A copy with the same model.
    fn clone(&self) -> (copy: VerifyError)
        ensures
            copy@ == self@,
    {
        match self {
            VerifyError::MissingKey { marker, key } => VerifyError::MissingKey {
                marker: marker.clone(),
                key: key.clone(),
            },
            VerifyError::Mismatch { marker, key, expected, received } => VerifyError::Mismatch {
                marker: marker.clone(),
                key: key.clone(),
                expected: expected.clone(),
                received: received.clone(),
            },
        }
    }
}

/// What went wrong with one entry.
#[derive(Debug)]
pub enum EntryError {
    /// The response did not satisfy the expectation.
    Mismatch(VerifyError),
    /// The call could not be dispatched, on the last attempt allowed.
    Transport(String),
}

/// Mathematical model of an `EntryError`.
pub ghost enum EntryFailure {
    Mismatch(Failure),
    Transport(Seq<char>),
}

impl View for EntryError {
    type V = EntryFailure;

    open spec fn view(&self) -> EntryFailure {
        match self {
            EntryError::Mismatch(error) => EntryFailure::Mismatch(error@),
            EntryError::Transport(reason) => EntryFailure::Transport(reason@),
        }
    }
}

impl Clone for EntryError {
    /// A copy with the same model.
    fn clone(&self) -> (copy: EntryError)
        ensures
            copy@ == self@,
    {
        match self {
            EntryError::Mismatch(error) => EntryError::Mismatch(error.clone()),
            EntryError::Transport(reason) => EntryError::Transport(reason.clone()),
        }
    }
}

/// Where one scripted call stands.
#[derive(Debug)]
pub enum SimulationStatus {
    /// An attempt is under way.
    Pending,
    /// Answered, and nothing was expected of the answer.
    Done,
    /// Answered as expected.
    Check,
    /// The call arrived out of order.
    InvalidSequence,
    /// Not run yet.
    Skip,
    /// No answer came in time.
    Timeout,
    /// The call could not be dispatched and will be attempted again.
    Retry,
    /// The entry failed.
    Fail(EntryError),
}

/// Mathematical model of a `SimulationStatus`.
pub ghost enum StatusValue {
    Pending,
    Done,
    Check,
    InvalidSequence,
    Skip,
    Timeout,
    Retry,
    Fail(EntryFailure),
}

impl View for SimulationStatus {
    type V = StatusValue;

    open spec fn view(&self) -> StatusValue {
        match self {
            SimulationStatus::Pending => StatusValue::Pending,
            SimulationStatus::Done => StatusValue::Done,
            SimulationStatus::Check => StatusValue::Check,
            SimulationStatus::InvalidSequence => StatusValue::InvalidSequence,
            SimulationStatus::Skip => StatusValue::Skip,
            SimulationStatus::Timeout => StatusValue::Timeout,
            SimulationStatus::Retry => StatusValue::Retry,
            SimulationStatus::Fail(error) => StatusValue::Fail(error@),
        }
    }
}

impl Clone for SimulationStatus {
    /// A copy with the same model.
    fn clone(&self) -> (copy: SimulationStatus)
        ensures
            copy@ == self@,
    {
        match self {
            SimulationStatus::Pending => SimulationStatus::Pending,
            SimulationStatus::Done => SimulationStatus::Done,
            SimulationStatus::Check => SimulationStatus::Check,
            SimulationStatus::InvalidSequence => SimulationStatus::InvalidSequence,
            SimulationStatus::Skip => SimulationStatus::Skip,
            SimulationStatus::Timeout => SimulationStatus::Timeout,
            SimulationStatus::Retry => SimulationStatus::Retry,
            SimulationStatus::Fail(error) => SimulationStatus::Fail(error.clone()),
        }
    }
}

/// Whether a status ends an entry with success.
pub open spec fn is_success(status: StatusValue) -> bool {
    status is Done || status is Check
}

/// The text of a verification failure: the marker, what failed and the key,
/// and for a mismatch the expected and the received value.
pub open spec fn failure_text(failure: Failure) -> Seq<char> {
    match failure {
        Failure::MissingKey { marker, key } => marker + ": missing key "@ + key,
        Failure::Mismatch { marker, key, expected, received } => marker + ": mismatch at key "@
            + key + ": expected "@ + rendered(expected) + ", received "@ + rendered(received),
    }
}

/// The text of an entry's failure.
pub open spec fn entry_failure_text(failure: EntryFailure) -> Seq<char> {
    match failure {
        EntryFailure::Mismatch(inner) => failure_text(inner),
        EntryFailure::Transport(reason) => "transport failure: "@ + reason,
    }
}

/// The name of a status, as reports show it.
pub open spec fn status_name(status: StatusValue) -> Seq<char> {
    match status {
        StatusValue::Pending => "Pending"@,
        StatusValue::Done => "Done"@,
        StatusValue::Check => "Checked"@,
        StatusValue::InvalidSequence => "InvalidSequence"@,
        StatusValue::Skip => "Skip"@,
        StatusValue::Timeout => "Timeout"@,
        StatusValue::Retry => "Retry"@,
        StatusValue::Fail(failure) => "Fail "@ + entry_failure_text(failure),
    }
}

impl VerifyError {
    /// The text of this failure.
    pub fn describe(&self) -> (text: String)
        ensures
            text@ == failure_text(self@),
    {
        match self {
            VerifyError::MissingKey { marker, key } => {
                let mut text = marker.clone();
                text.append(": missing key ");
                text.append(key.as_str());
                text
            },
            VerifyError::Mismatch { marker, key, expected, received } => {
                let mut text = marker.clone();
                text.append(": mismatch at key ");
                text.append(key.as_str());
                text.append(": expected ");
                expected.push_rendered(&mut text);
                text.append(", received ");
                received.push_rendered(&mut text);
                text
            },
        }
    }
}

impl EntryError {
    /// The text of this failure.
    pub fn describe(&self) -> (text: String)
        ensures
            text@ == entry_failure_text(self@),
    {
        match self {
            EntryError::Mismatch(inner) => inner.describe(),
            EntryError::Transport(reason) => {
                let mut text = String::from_str("transport failure: ");
                text.append(reason.as_str());
                text
            },
        }
    }
}

impl SimulationStatus {
    /// The name of this status, as reports show it.
    pub fn name(&self) -> (text: String)
        ensures
            text@ == status_name(self@),
    {
        match self {
            SimulationStatus::Pending => String::from_str("Pending"),
            SimulationStatus::Done => String::from_str("Done"),
            SimulationStatus::Check => String::from_str("Checked"),
            SimulationStatus::InvalidSequence => String::from_str("InvalidSequence"),
            SimulationStatus::Skip => String::from_str("Skip"),
            SimulationStatus::Timeout => String::from_str("Timeout"),
            SimulationStatus::Retry => String::from_str("Retry"),
            SimulationStatus::Fail(error) => {
                let mut text = String::from_str("Fail ");
                let detail = error.describe();
                text.append(detail.as_str());
                text
            },
        }
    }
}

} // verus!
