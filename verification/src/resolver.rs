//! Type descriptor resolver: one bounded attempt to turn the type
//! information of a matched publication into a topic descriptor.
//!
//! The attempt itself is a call into the middleware. This module decides
//! whether an attempt is made and with which parameters, and what its status
//! code means.

use crate::entry::TypeInfo;
use vstd::prelude::*;

verus! {

/// Where the middleware looks for a type definition.
#[derive(Clone, Copy, Debug, PartialEq, Eq, Structural)]
pub enum FindScope {
    /// Among the types already known locally and those yet to be announced
    /// by remote participants.
    Global,
    /// Among the types known in the local domain.
    LocalDomain,
    /// Among the types known to this participant.
    Participant,
}

/// Time allowed to one resolution attempt, in nanoseconds: 200 ms.
pub const RESOLVE_TIMEOUT_NS: i64 = 200_000_000;

/// Parameters of one resolution attempt.
#[derive(Clone, Copy, Debug, PartialEq, Eq, Structural)]
pub struct ResolveRequest {
    pub scope: FindScope,
    pub timeout_ns: i64,
}

/// Why no descriptor was obtained.
#[derive(Clone, Copy, Debug, PartialEq, Eq, Structural)]
pub enum ResolveError {
    /// The publication carries no type information, or a null reference.
    TypeInfoUnavailable,
    /// The attempt failed or timed out, with the given status code.
    DescriptorFailed(i32),
}

/// The request of every attempt: global scope, because the announcement of
/// a type and that of a publication using it may arrive in either order, and
/// the fixed timeout.
pub open spec fn standard_request() -> ResolveRequest {
    ResolveRequest { scope: FindScope::Global, timeout_ns: RESOLVE_TIMEOUT_NS }
}

/// Outcome of planning an attempt for the given type information.
pub open spec fn plan_outcome(info: TypeInfo) -> Result<ResolveRequest, ResolveError> {
    if info.available() {
        Ok(standard_request())
    } else {
        Err(ResolveError::TypeInfoUnavailable)
    }
}

/// Meaning of the status code of an attempt.
pub open spec fn attempt_outcome(status: i32) -> Result<(), ResolveError> {
    if status == 0 {
        Ok(())
    } else {
        Err(ResolveError::DescriptorFailed(status))
    }
}

/// Plans the resolution of `info`: the request to make, or the reason why
/// none can be made.
pub fn plan(info: TypeInfo) -> (res: Result<ResolveRequest, ResolveError>)
    ensures
        res == plan_outcome(info),
{
    if info.is_available() {
        Ok(ResolveRequest { scope: FindScope::Global, timeout_ns: RESOLVE_TIMEOUT_NS })
    } else {
        Err(ResolveError::TypeInfoUnavailable)
    }
}

/// Interprets the status code that an attempt returned: zero means that a
/// descriptor was produced, anything else that the attempt failed.
pub fn conclude(status: i32) -> (res: Result<(), ResolveError>)
    ensures
        res == attempt_outcome(status),
{
    if status == 0 {
        Ok(())
    } else {
        Err(ResolveError::DescriptorFailed(status))
    }
}

} // verus!
