//! Conditions that the loops ask their caller to log.

use vstd::prelude::*;

verus! {

/// One condition to log. Where a report concerns a publication, it is the
/// one whose entry the loop was handed last; the others concern the target
/// topic. Integer payloads are the status codes that the middleware
/// returned.
#[derive(Clone, Copy, Debug, PartialEq, Eq, Structural)]
pub enum Report {
    /// The discovery loop starts waiting for the target topic.
    Waiting,
    /// Waiting for discovery activity failed.
    WaitFailed(i32),
    /// Taking from a reader failed.
    TakeFailed(i32),
    /// A discovered topic name is not valid text.
    InvalidTopicName,
    /// A publication was discovered.
    Discovered,
    /// A publication on the target topic carries no usable type information.
    TypeInfoUnavailable,
    /// Resolving the type descriptor of the target topic failed.
    DescriptorFailed(i32),
    /// Creating the topic from its resolved descriptor failed.
    TopicCreationFailed(i32),
    /// The target topic was found and created.
    Found,
    /// A sample with valid data was received.
    DataReceived,
    /// Returning a loan failed.
    ReleaseFailed(i32),
    /// The domain participant could not be created.
    ParticipantFailed(i32),
}

/// How serious a reported condition is.
#[derive(Clone, Copy, Debug, PartialEq, Eq, Structural)]
pub enum Severity {
    /// Progress, not a failure.
    Info,
    /// A failure after which the loop carries on.
    Recoverable,
    /// A failure after which no work is possible.
    Fatal,
}

impl Report {
    /// Only the failure to create the participant is fatal; every other
    /// failure is recoverable.
    pub open spec fn spec_severity(self) -> Severity {
        match self {
            Report::Waiting | Report::Discovered | Report::Found | Report::DataReceived => {
                Severity::Info
            },
            Report::ParticipantFailed(_) => Severity::Fatal,
            _ => Severity::Recoverable,
        }
    }

    /// Classifies the condition.
    #[verifier::when_used_as_spec(spec_severity)]
    pub fn severity(self) -> (s: Severity)
        ensures
            s == self.spec_severity(),
    {
        match self {
            Report::Waiting | Report::Discovered | Report::Found | Report::DataReceived => {
                Severity::Info
            },
            Report::ParticipantFailed(_) => Severity::Fatal,
            _ => Severity::Recoverable,
        }
    }
}

} // verus!
