use topic_discovery::bootstrap::{
    admit_participant, DOMAIN_ID, ENTRIES_PER_TAKE, EXIT_FAILURE, TARGET_TOPIC, WAIT_FOREVER,
};
use topic_discovery::consumer::{
    after_release, inspect, Inspection, SampleLoan, POLL_INTERVAL_SECS, SAMPLES_PER_TAKE,
};

fn take(count: i32, valid_data: bool) -> Inspection {
    inspect(SampleLoan { count, valid_data })
}
use topic_discovery::report::{Report, Severity};

#[test]
fn valid_sample_is_received_and_released() {
    assert_eq!(
        take(1, true),
        Inspection { data_received: true, release_loan: true, report: Some(Report::DataReceived) }
    );
}

#[test]
fn invalid_sample_is_released_but_not_received() {
    assert_eq!(
        take(1, false),
        Inspection { data_received: false, release_loan: true, report: None }
    );
}

#[test]
fn empty_take_calls_for_nothing() {
    let idle = Inspection { data_received: false, release_loan: false, report: None };
    assert_eq!(take(0, false), idle);
    assert_eq!(take(0, true), idle);
}

#[test]
fn failed_take_is_logged_and_releases_nothing() {
    assert_eq!(
        take(-1, true),
        Inspection {
            data_received: false,
            release_loan: false,
            report: Some(Report::TakeFailed(-1)),
        }
    );
    assert_eq!(take(i32::MIN, false).report, Some(Report::TakeFailed(i32::MIN)));
}

#[test]
fn invalid_data_is_never_received_whatever_the_count() {
    for count in [i32::MIN, -7, -1, 0, 1, 2, 32, i32::MAX] {
        assert!(!take(count, false).data_received);
        assert_ne!(take(count, false).report, Some(Report::DataReceived));
    }
}

#[test]
fn every_sample_taken_is_released_once() {
    let polls = [(0, false), (1, true), (1, false), (-2, true), (1, true), (0, true)];
    let mut taken = 0;
    let mut released = 0;
    let mut received = 0;
    for (count, valid) in polls {
        let verdict = take(count, valid);
        if count > 0 {
            taken += 1;
        }
        if verdict.release_loan {
            released += 1;
        }
        if verdict.data_received {
            received += 1;
        }
    }
    assert_eq!(taken, 3);
    assert_eq!(released, 3);
    assert_eq!(received, 2);
}

#[test]
fn failed_release_is_logged() {
    assert_eq!(after_release(0), None);
    assert_eq!(after_release(3), None);
    assert_eq!(after_release(-1), Some(Report::ReleaseFailed(-1)));
}

#[test]
fn poll_takes_one_sample_every_second() {
    assert_eq!(POLL_INTERVAL_SECS, 1);
    assert_eq!(SAMPLES_PER_TAKE, 1);
}

#[test]
fn fixed_configuration() {
    assert_eq!(DOMAIN_ID, 0);
    assert_eq!(TARGET_TOPIC, "HelloWorldData_Msg");
    assert_eq!(WAIT_FOREVER, i64::MAX);
    assert_eq!(ENTRIES_PER_TAKE, 1);
    assert_eq!(EXIT_FAILURE, 1);
}

#[test]
fn live_participant_is_admitted() {
    assert_eq!(admit_participant(0), Ok(0));
    assert_eq!(admit_participant(1_234_567), Ok(1_234_567));
}

#[test]
fn failed_participant_is_fatal() {
    let err = admit_participant(-1).unwrap_err();
    assert_eq!(err, Report::ParticipantFailed(-1));
    assert_eq!(err.severity(), Severity::Fatal);
}

#[test]
fn only_the_participant_failure_is_fatal() {
    let recoverable = [
        Report::WaitFailed(-1),
        Report::TakeFailed(-1),
        Report::InvalidTopicName,
        Report::TypeInfoUnavailable,
        Report::DescriptorFailed(-10),
        Report::TopicCreationFailed(-1),
        Report::ReleaseFailed(-1),
    ];
    for report in recoverable {
        assert_eq!(report.severity(), Severity::Recoverable);
    }
    let progress = [Report::Waiting, Report::Discovered, Report::Found, Report::DataReceived];
    for report in progress {
        assert_eq!(report.severity(), Severity::Info);
    }
    assert_eq!(Report::ParticipantFailed(-4).severity(), Severity::Fatal);
}
