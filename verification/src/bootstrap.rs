//! Fixed configuration of the subscriber, and the one failure that stops
//! it: without a domain participant no work is possible.

use crate::report::Report;
use vstd::prelude::*;

verus! {

/// Domain that the subscriber joins.
pub const DOMAIN_ID: u32 = 0;

/// Name of the topic that the subscriber looks for.
pub const TARGET_TOPIC: &'static str = "HelloWorldData_Msg";

/// Timeout that makes a wait block until there is activity.
pub const WAIT_FOREVER: i64 = i64::MAX;

/// Most entries asked for in one take from the discovery feed.
pub const ENTRIES_PER_TAKE: u32 = 1;

/// Exit status of the process after a fatal failure.
pub const EXIT_FAILURE: i32 = 1;

/// Whether a handle returned by the middleware denotes an entity. Negative
/// handles are status codes of a failed creation.
pub open spec fn is_live(handle: i32) -> bool {
    handle >= 0
}

/// What the creation of the participant came to: the participant, or the
/// fatal condition to report before the process exits.
pub open spec fn participant_outcome(handle: i32) -> Result<i32, Report> {
    if is_live(handle) {
        Ok(handle)
    } else {
        Err(Report::ParticipantFailed(handle))
    }
}

/// Admits the handle that the creation of the domain participant returned,
/// or turns it into the fatal condition to report.
pub fn admit_participant(handle: i32) -> (res: Result<i32, Report>)
    ensures
        res == participant_outcome(handle),
{
    if handle >= 0 {
        Ok(handle)
    } else {
        Err(Report::ParticipantFailed(handle))
    }
}

} // verus!
