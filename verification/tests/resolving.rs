use topic_discovery::entry::TypeInfo;
use topic_discovery::resolver::{
    conclude, plan, FindScope, ResolveError, ResolveRequest, RESOLVE_TIMEOUT_NS,
};

#[test]
fn timeout_is_two_hundred_milliseconds() {
    assert_eq!(RESOLVE_TIMEOUT_NS, 200_000_000);
}

#[test]
fn available_type_info_is_resolved_globally_within_the_timeout() {
    let info = TypeInfo { status: 0, present: true };
    assert!(info.is_available());
    assert_eq!(
        plan(info),
        Ok(ResolveRequest { scope: FindScope::Global, timeout_ns: 200_000_000 })
    );
}

#[test]
fn null_reference_is_not_resolved() {
    let info = TypeInfo { status: 0, present: false };
    assert!(!info.is_available());
    assert_eq!(plan(info), Err(ResolveError::TypeInfoUnavailable));
}

#[test]
fn failed_lookup_is_not_resolved() {
    let info = TypeInfo { status: -3, present: true };
    assert!(!info.is_available());
    assert_eq!(plan(info), Err(ResolveError::TypeInfoUnavailable));
    assert_eq!(
        plan(TypeInfo { status: 1, present: false }),
        Err(ResolveError::TypeInfoUnavailable)
    );
}

#[test]
fn zero_status_concludes_an_attempt_with_success() {
    assert_eq!(conclude(0), Ok(()));
}

#[test]
fn any_other_status_concludes_an_attempt_with_failure() {
    assert_eq!(conclude(-10), Err(ResolveError::DescriptorFailed(-10)));
    assert_eq!(conclude(-1), Err(ResolveError::DescriptorFailed(-1)));
    assert_eq!(conclude(5), Err(ResolveError::DescriptorFailed(5)));
    assert_eq!(conclude(i32::MIN), Err(ResolveError::DescriptorFailed(i32::MIN)));
}
