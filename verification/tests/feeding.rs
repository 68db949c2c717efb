use topic_discovery::entry::{next_entry, Taken};

#[test]
fn failed_take_carries_its_status() {
    assert_eq!(next_entry(-1, false), Taken::Failed(-1));
    assert_eq!(next_entry(-1, true), Taken::Failed(-1));
    assert_eq!(next_entry(i32::MIN, true), Taken::Failed(i32::MIN));
}

#[test]
fn drained_feed_yields_nothing() {
    assert_eq!(next_entry(0, false), Taken::Nothing);
    assert_eq!(next_entry(0, true), Taken::Nothing);
}

#[test]
fn entry_without_valid_data_is_not_actionable() {
    assert_eq!(next_entry(1, false), Taken::Invalid);
    assert_eq!(next_entry(i32::MAX, false), Taken::Invalid);
}

#[test]
fn valid_entry_is_actionable() {
    assert_eq!(next_entry(1, true), Taken::Entry);
}
