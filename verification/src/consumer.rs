//! Sample consumption loop.
//!
//! Once the topic has a reader, the caller polls it at a fixed interval:
//! it takes at most one sample, without blocking, and reports here what the
//! take returned. The answer says whether data was received and whether
//! there is a loan to return.

use crate::report::Report;
use vstd::prelude::*;

verus! {

/// Time between two polls of the reader, in seconds.
pub const POLL_INTERVAL_SECS: u64 = 1;

/// Most samples asked for in one take.
pub const SAMPLES_PER_TAKE: u32 = 1;

/// What one take from the reader returned: at most one sample, on loan from
/// the middleware until it is released.
#[derive(Clone, Copy, Debug, PartialEq, Eq, Structural)]
pub struct SampleLoan {
    /// Count of samples taken, or a negative status code.
    pub count: i32,
    /// Validity flag of the sample; it means nothing unless one was taken.
    pub valid_data: bool,
}

impl SampleLoan {
    /// Whether there is a sample to release.
    pub open spec fn holds_sample(self) -> bool {
        self.count > 0
    }
}

/// What to do with the result of one take.
#[derive(Clone, Copy, Debug, PartialEq, Eq, Structural)]
pub struct Inspection {
    /// The take delivered a sample with valid data.
    pub data_received: bool,
    /// The take delivered a sample, whose loan is to be returned now.
    pub release_loan: bool,
    /// Condition to log, if any.
    pub report: Option<Report>,
}

/// The inspection of a take.
///
/// A sample is returned whether its data is valid or not; data counts as
/// received only if it is valid. An empty take calls for nothing, and a
/// failed one for a line in the log.
pub open spec fn inspection(loan: SampleLoan) -> Inspection {
    if loan.holds_sample() {
        Inspection {
            data_received: loan.valid_data,
            release_loan: true,
            report: if loan.valid_data {
                Some(Report::DataReceived)
            } else {
                None
            },
        }
    } else {
        Inspection {
            data_received: false,
            release_loan: false,
            report: if loan.count < 0 {
                Some(Report::TakeFailed(loan.count))
            } else {
                None
            },
        }
    }
}

/// Inspects the result of one take from the reader. The validity flag is
/// looked at only if a sample was taken.
pub fn inspect(loan: SampleLoan) -> (verdict: Inspection)
    ensures
        verdict == inspection(loan),
{
    if loan.count > 0 {
        Inspection {
            data_received: loan.valid_data,
            release_loan: true,
            report: if loan.valid_data {
                Some(Report::DataReceived)
            } else {
                None
            },
        }
    } else {
        Inspection {
            data_received: false,
            release_loan: false,
            report: if loan.count < 0 {
                Some(Report::TakeFailed(loan.count))
            } else {
                None
            },
        }
    }
}

/// The condition to log after a loan was returned with this status code:
/// none on success, which is zero or more.
pub open spec fn release_outcome(status: i32) -> Option<Report> {
    if status < 0 {
        Some(Report::ReleaseFailed(status))
    } else {
        None
    }
}

/// Interprets the status code that returning a loan gave.
pub fn after_release(status: i32) -> (report: Option<Report>)
    ensures
        report == release_outcome(status),
{
    if status < 0 {
        Some(Report::ReleaseFailed(status))
    } else {
        None
    }
}

/// Samples taken over a sequence of polls of the reader.
pub open spec fn samples_taken(polls: Seq<SampleLoan>) -> nat
    decreases polls.len(),
{
    if polls.len() == 0 {
        0
    } else {
        samples_taken(polls.drop_last()) + if polls.last().holds_sample() {
            1nat
        } else {
            0nat
        }
    }
}

/// Samples that the inspections of a sequence of polls ask to release.
pub open spec fn samples_released(polls: Seq<SampleLoan>) -> nat
    decreases polls.len(),
{
    if polls.len() == 0 {
        0
    } else {
        samples_released(polls.drop_last()) + if inspection(polls.last()).release_loan {
            1nat
        } else {
            0nat
        }
    }
}

/// A sample whose validity flag is unset is never reported as data
/// received, and data is reported only for a sample that was taken.
pub proof fn lemma_invalid_data_is_not_received(loan: SampleLoan)
    ensures
        !loan.valid_data ==> !inspection(loan).data_received,
        inspection(loan).data_received <==> loan.holds_sample() && loan.valid_data,
        inspection(loan).report == Some(Report::DataReceived) <==> inspection(
            loan,
        ).data_received,
{
}

/// Every sample taken is released exactly once, valid or not, and nothing
/// is released when nothing was taken.
pub proof fn lemma_samples_released_once(polls: Seq<SampleLoan>)
    ensures
        samples_released(polls) == samples_taken(polls),
    decreases polls.len(),
{
    if polls.len() > 0 {
        lemma_samples_released_once(polls.drop_last());
    }
}

} // verus!
