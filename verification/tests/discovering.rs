use topic_discovery::discovery::{Command, DiscoveryLoop, OutOfTurn, Phase, Step};
use topic_discovery::entry::{DiscoveryEntry, TypeInfo};
use topic_discovery::report::Report;
use topic_discovery::resolver::{FindScope, ResolveRequest};

const TARGET: &str = "TargetTopic";

fn entry(name: &str) -> DiscoveryEntry {
    DiscoveryEntry {
        valid_data: true,
        topic_name: name.as_bytes().to_vec(),
        type_info: TypeInfo { status: 0, present: true },
    }
}

fn blank() -> DiscoveryEntry {
    DiscoveryEntry {
        valid_data: false,
        topic_name: Vec::new(),
        type_info: TypeInfo { status: 0, present: false },
    }
}

fn step(reports: Vec<Report>, release_descriptor: bool, release_loan: bool, command: Command) -> Step {
    Step { reports, release_descriptor, release_loan, command }
}

fn resolve() -> Command {
    Command::Resolve(ResolveRequest { scope: FindScope::Global, timeout_ns: 200_000_000 })
}

fn draining() -> DiscoveryLoop {
    let mut lp = DiscoveryLoop::new(TARGET.to_string());
    lp.on_wake(1).unwrap();
    lp
}

fn matched() -> DiscoveryLoop {
    let mut lp = draining();
    lp.on_take(1, &entry(TARGET)).unwrap();
    lp
}

fn resolved() -> DiscoveryLoop {
    let mut lp = matched();
    lp.on_resolution(0).unwrap();
    lp
}

#[test]
fn new_loop_waits_without_a_topic() {
    let lp = DiscoveryLoop::new(TARGET.to_string());
    assert_eq!(lp.phase(), Phase::Waiting);
    assert_eq!(lp.target(), TARGET);
    assert_eq!(lp.topic(), None);
    assert!(!lp.is_found());
    assert_eq!(lp.awaits(), Command::Wait);
}

#[test]
fn begin_announces_the_wait() {
    let lp = DiscoveryLoop::new(TARGET.to_string());
    assert_eq!(lp.begin(), step(vec![Report::Waiting], false, false, Command::Wait));
    assert_eq!(lp.phase(), Phase::Waiting);
}

#[test]
fn activity_makes_entries_available() {
    let mut lp = DiscoveryLoop::new(TARGET.to_string());
    assert_eq!(lp.on_wake(1), Ok(step(vec![], false, false, Command::Take)));
    assert_eq!(lp.phase(), Phase::EntryAvailable);
    let mut lp = DiscoveryLoop::new(TARGET.to_string());
    assert_eq!(lp.on_wake(i32::MAX), Ok(step(vec![], false, false, Command::Take)));
    assert_eq!(lp.phase(), Phase::EntryAvailable);
}

#[test]
fn wake_without_activity_waits_again() {
    let mut lp = DiscoveryLoop::new(TARGET.to_string());
    assert_eq!(lp.on_wake(0), Ok(step(vec![], false, false, Command::Wait)));
    assert_eq!(lp.phase(), Phase::Waiting);
}

#[test]
fn failed_wait_is_logged_and_repeated() {
    let mut lp = DiscoveryLoop::new(TARGET.to_string());
    assert_eq!(
        lp.on_wake(-1),
        Ok(step(vec![Report::WaitFailed(-1)], false, false, Command::Wait))
    );
    assert_eq!(lp.phase(), Phase::Waiting);
    assert!(!lp.is_found());
}

#[test]
fn empty_take_goes_back_to_waiting() {
    let mut lp = draining();
    assert_eq!(lp.on_take(0, &blank()), Ok(step(vec![], false, false, Command::Wait)));
    assert_eq!(lp.phase(), Phase::Waiting);
}

#[test]
fn empty_take_does_not_look_at_the_entry() {
    let mut lp = draining();
    assert_eq!(lp.on_take(0, &entry(TARGET)), Ok(step(vec![], false, false, Command::Wait)));
    assert_eq!(lp.phase(), Phase::Waiting);
}

#[test]
fn failed_take_is_logged_and_goes_back_to_waiting() {
    let mut lp = draining();
    assert_eq!(
        lp.on_take(-2, &entry(TARGET)),
        Ok(step(vec![Report::TakeFailed(-2)], false, false, Command::Wait))
    );
    assert_eq!(lp.phase(), Phase::Waiting);
}

#[test]
fn invalid_entry_is_released_unread() {
    let mut lp = draining();
    let mut invalid = entry(TARGET);
    invalid.valid_data = false;
    assert_eq!(lp.on_take(1, &invalid), Ok(step(vec![], false, true, Command::Take)));
    assert_eq!(lp.phase(), Phase::EntryAvailable);
    assert_eq!(lp.on_take(1, &blank()), Ok(step(vec![], false, true, Command::Take)));
    assert_eq!(lp.phase(), Phase::EntryAvailable);
}

#[test]
fn other_topic_is_released_and_draining_goes_on() {
    let mut lp = draining();
    assert_eq!(
        lp.on_take(1, &entry("OtherTopic")),
        Ok(step(vec![Report::Discovered], false, true, Command::Take))
    );
    assert_eq!(lp.phase(), Phase::EntryAvailable);
}

#[test]
fn name_that_is_not_text_is_reported_and_released() {
    let mut lp = draining();
    let mut garbled = entry(TARGET);
    garbled.topic_name = vec![b'T', 0xff, b'x'];
    assert_eq!(
        lp.on_take(1, &garbled),
        Ok(step(vec![Report::InvalidTopicName], false, true, Command::Take))
    );
    assert_eq!(lp.phase(), Phase::EntryAvailable);
}

#[test]
fn match_holds_the_loan_and_asks_for_resolution() {
    let mut lp = draining();
    assert_eq!(
        lp.on_take(1, &entry(TARGET)),
        Ok(step(vec![Report::Discovered], false, false, resolve()))
    );
    assert_eq!(lp.phase(), Phase::Matched);
    assert_eq!(lp.awaits(), resolve());
}

#[test]
fn match_without_type_info_goes_back_to_waiting() {
    for info in [
        TypeInfo { status: 0, present: false },
        TypeInfo { status: -3, present: true },
        TypeInfo { status: -3, present: false },
    ] {
        let mut lp = draining();
        let mut e = entry(TARGET);
        e.type_info = info;
        assert_eq!(
            lp.on_take(1, &e),
            Ok(step(
                vec![Report::Discovered, Report::TypeInfoUnavailable],
                false,
                true,
                Command::Wait
            ))
        );
        assert_eq!(lp.phase(), Phase::Waiting);
    }
}

#[test]
fn other_topic_without_type_info_is_an_ordinary_mismatch() {
    let mut lp = draining();
    let mut e = entry("OtherTopic");
    e.type_info = TypeInfo { status: -3, present: false };
    assert_eq!(lp.on_take(1, &e), Ok(step(vec![Report::Discovered], false, true, Command::Take)));
}

#[test]
fn resolution_moves_on_to_creation_under_the_matched_name() {
    let mut lp = matched();
    assert_eq!(
        lp.on_resolution(0),
        Ok(step(vec![], false, false, Command::CreateTopic { name: TARGET.to_string() }))
    );
    assert_eq!(lp.phase(), Phase::Resolved);
}

#[test]
fn failed_resolution_releases_the_loan_and_waits() {
    let mut lp = matched();
    assert_eq!(
        lp.on_resolution(-10),
        Ok(step(vec![Report::DescriptorFailed(-10)], false, true, Command::Wait))
    );
    assert_eq!(lp.phase(), Phase::Waiting);
    assert_eq!(lp.topic(), None);
}

#[test]
fn created_topic_ends_the_loop() {
    let mut lp = resolved();
    assert_eq!(
        lp.on_creation(42),
        Ok(step(vec![Report::Found], true, true, Command::Finish { topic: 42 }))
    );
    assert_eq!(lp.phase(), Phase::Found);
    assert!(lp.is_found());
    assert_eq!(lp.topic(), Some(42));
    assert_eq!(lp.awaits(), Command::Finish { topic: 42 });
}

#[test]
fn handle_zero_is_a_topic() {
    let mut lp = resolved();
    assert_eq!(
        lp.on_creation(0),
        Ok(step(vec![Report::Found], true, true, Command::Finish { topic: 0 }))
    );
    assert_eq!(lp.topic(), Some(0));
}

#[test]
fn failed_creation_releases_everything_and_waits() {
    let mut lp = resolved();
    assert_eq!(
        lp.on_creation(-1),
        Ok(step(vec![Report::TopicCreationFailed(-1)], true, true, Command::Wait))
    );
    assert_eq!(lp.phase(), Phase::Waiting);
    assert_eq!(lp.topic(), None);
    assert!(!lp.is_found());
}

#[test]
fn reports_out_of_turn_are_refused_and_change_nothing() {
    let mut lp = DiscoveryLoop::new(TARGET.to_string());
    let waiting = Err(OutOfTurn { phase: Phase::Waiting });
    assert_eq!(lp.on_take(1, &entry(TARGET)), waiting);
    assert_eq!(lp.on_resolution(0), waiting);
    assert_eq!(lp.on_creation(5), waiting);
    assert_eq!(lp.phase(), Phase::Waiting);
    assert_eq!(lp.topic(), None);

    let mut lp = draining();
    let available = Err(OutOfTurn { phase: Phase::EntryAvailable });
    assert_eq!(lp.on_wake(1), available);
    assert_eq!(lp.on_resolution(0), available);
    assert_eq!(lp.on_creation(5), available);
    assert_eq!(lp.phase(), Phase::EntryAvailable);

    let mut lp = matched();
    let in_match = Err(OutOfTurn { phase: Phase::Matched });
    assert_eq!(lp.on_wake(1), in_match);
    assert_eq!(lp.on_take(1, &entry(TARGET)), in_match);
    assert_eq!(lp.on_creation(5), in_match);
    assert_eq!(lp.phase(), Phase::Matched);

    let mut lp = resolved();
    let in_creation = Err(OutOfTurn { phase: Phase::Resolved });
    assert_eq!(lp.on_wake(1), in_creation);
    assert_eq!(lp.on_take(1, &entry(TARGET)), in_creation);
    assert_eq!(lp.on_resolution(0), in_creation);
    assert_eq!(lp.phase(), Phase::Resolved);
}

#[test]
fn found_loop_creates_no_second_topic() {
    let mut lp = resolved();
    lp.on_creation(42).unwrap();
    let found = Err(OutOfTurn { phase: Phase::Found });
    assert_eq!(lp.on_wake(1), found);
    assert_eq!(lp.on_take(1, &entry(TARGET)), found);
    assert_eq!(lp.on_resolution(0), found);
    assert_eq!(lp.on_creation(43), found);
    assert_eq!(lp.phase(), Phase::Found);
    assert_eq!(lp.topic(), Some(42));
}

#[test]
fn other_topic_is_skipped_and_target_is_found() {
    let mut lp = DiscoveryLoop::new(TARGET.to_string());
    assert_eq!(lp.begin().command, Command::Wait);
    assert_eq!(lp.on_wake(1).unwrap().command, Command::Take);

    let skipped = lp.on_take(1, &entry("OtherTopic")).unwrap();
    assert!(skipped.release_loan);
    assert!(!skipped.release_descriptor);
    assert_eq!(skipped.command, Command::Take);
    assert_eq!(lp.phase(), Phase::EntryAvailable);

    let hit = lp.on_take(1, &entry(TARGET)).unwrap();
    assert!(!hit.release_loan);
    assert_eq!(hit.command, resolve());
    assert_eq!(lp.phase(), Phase::Matched);

    let resolved = lp.on_resolution(0).unwrap();
    assert!(!resolved.release_loan);
    assert_eq!(resolved.command, Command::CreateTopic { name: "TargetTopic".to_string() });

    let done = lp.on_creation(7).unwrap();
    assert!(done.release_loan);
    assert!(done.release_descriptor);
    assert_eq!(done.reports, vec![Report::Found]);
    assert_eq!(done.command, Command::Finish { topic: 7 });
    assert_eq!(lp.phase(), Phase::Found);
    assert_eq!(lp.topic(), Some(7));
    assert_eq!(lp.target(), "TargetTopic");
}

#[test]
fn failed_resolution_is_retried_on_the_next_announcement() {
    let mut lp = DiscoveryLoop::new(TARGET.to_string());
    lp.on_wake(1).unwrap();
    lp.on_take(1, &entry(TARGET)).unwrap();

    let failed = lp.on_resolution(-10).unwrap();
    assert_eq!(failed.reports, vec![Report::DescriptorFailed(-10)]);
    assert_eq!(failed.reports[0].severity(), topic_discovery::report::Severity::Recoverable);
    assert!(failed.release_loan);
    assert_eq!(failed.command, Command::Wait);
    assert_eq!(lp.phase(), Phase::Waiting);
    assert!(!lp.is_found());

    assert_eq!(lp.on_wake(1).unwrap().command, Command::Take);
    assert_eq!(lp.on_take(1, &entry(TARGET)).unwrap().command, resolve());
    assert_eq!(
        lp.on_resolution(0).unwrap().command,
        Command::CreateTopic { name: TARGET.to_string() }
    );
    assert_eq!(lp.on_creation(9).unwrap().command, Command::Finish { topic: 9 });
    assert_eq!(lp.topic(), Some(9));
}

#[test]
fn loop_never_ends_on_other_topics() {
    let mut lp = DiscoveryLoop::new(TARGET.to_string());
    for round in 0..200 {
        if lp.phase() == Phase::Waiting {
            lp.on_wake(1).unwrap();
        }
        let name = format!("Topic{}", round);
        let s = lp.on_take(1, &entry(&name)).unwrap();
        assert!(s.release_loan);
        assert!(matches!(lp.phase(), Phase::Waiting | Phase::EntryAvailable));
        if round % 7 == 0 {
            lp.on_take(0, &blank()).unwrap();
            assert_eq!(lp.phase(), Phase::Waiting);
        }
    }
    assert!(!lp.is_found());
    assert_eq!(lp.topic(), None);
}

#[test]
fn every_loan_and_descriptor_is_released_exactly_once() {
    let mut lp = DiscoveryLoop::new(TARGET.to_string());
    let mut loans_taken = 0;
    let mut loans_returned = 0;
    let mut descriptors_taken = 0;
    let mut descriptors_returned = 0;
    let mut tally = |s: &Step| {
        if s.release_loan {
            loans_returned += 1;
        }
        if s.release_descriptor {
            descriptors_returned += 1;
        }
    };

    let mut garbled = entry(TARGET);
    garbled.topic_name = vec![0xc3];
    let mut untyped = entry(TARGET);
    untyped.type_info = TypeInfo { status: 0, present: false };

    // Invalid, not text, mismatch: each released while draining.
    tally(&lp.on_wake(3).unwrap());
    for e in [blank(), garbled, entry("OtherTopic")] {
        loans_taken += 1;
        tally(&lp.on_take(1, &e).unwrap());
    }
    // Match without type information.
    loans_taken += 1;
    tally(&lp.on_take(1, &untyped).unwrap());
    // Match, resolution fails.
    tally(&lp.on_wake(1).unwrap());
    loans_taken += 1;
    tally(&lp.on_take(1, &entry(TARGET)).unwrap());
    tally(&lp.on_resolution(-10).unwrap());
    // Match, creation fails.
    tally(&lp.on_wake(1).unwrap());
    loans_taken += 1;
    tally(&lp.on_take(1, &entry(TARGET)).unwrap());
    descriptors_taken += 1;
    tally(&lp.on_resolution(0).unwrap());
    tally(&lp.on_creation(-1).unwrap());
    // Empty take, then success.
    tally(&lp.on_wake(1).unwrap());
    tally(&lp.on_take(0, &blank()).unwrap());
    tally(&lp.on_wake(1).unwrap());
    loans_taken += 1;
    tally(&lp.on_take(1, &entry(TARGET)).unwrap());
    descriptors_taken += 1;
    tally(&lp.on_resolution(0).unwrap());
    tally(&lp.on_creation(11).unwrap());

    assert!(lp.is_found());
    assert_eq!(loans_taken, 7);
    assert_eq!(loans_returned, 7);
    assert_eq!(descriptors_taken, 2);
    assert_eq!(descriptors_returned, 2);
}
