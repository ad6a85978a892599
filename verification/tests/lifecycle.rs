use kiss_controller::state::{BoxState, Task, Timing};
use kiss_controller::time::{Span, Timestamp};

const ALL: [BoxState; 7] = [
    BoxState::New,
    BoxState::Commissioning,
    BoxState::Ready,
    BoxState::Joining,
    BoxState::Running,
    BoxState::Disconnected,
    BoxState::Failed,
];

#[test]
fn next_follows_the_pipeline() {
    assert_eq!(BoxState::New.next(), BoxState::Commissioning);
    assert_eq!(BoxState::Commissioning.next(), BoxState::Commissioning);
    assert_eq!(BoxState::Ready.next(), BoxState::Joining);
    assert_eq!(BoxState::Joining.next(), BoxState::Joining);
    assert_eq!(BoxState::Disconnected.next(), BoxState::Disconnected);
}

#[test]
fn running_and_failed_are_fixed_points() {
    assert_eq!(BoxState::Running.next(), BoxState::Running);
    assert_eq!(BoxState::Failed.next(), BoxState::Failed);
}

#[test]
fn every_stage_fails_to_failed() {
    for state in ALL {
        assert_eq!(state.fail(), BoxState::Failed);
    }
}

#[test]
fn tasks_of_stages() {
    assert_eq!(BoxState::New.as_task(), None);
    assert_eq!(BoxState::Commissioning.as_task(), Some(Task::Commission));
    assert_eq!(BoxState::Ready.as_task(), None);
    assert_eq!(BoxState::Joining.as_task(), Some(Task::Join));
    assert_eq!(BoxState::Running.as_task(), Some(Task::Ping));
    assert_eq!(BoxState::Disconnected.as_task(), Some(Task::Reset));
    assert_eq!(BoxState::Failed.as_task(), None);
}

#[test]
fn task_names() {
    assert_eq!(Task::Commission.name(), "commission");
    assert_eq!(Task::Join.name(), "join");
    assert_eq!(Task::Ping.name(), "ping");
    assert_eq!(Task::Reset.name(), "reset");
}

#[test]
fn only_running_has_a_cadence() {
    for state in ALL {
        let expected =
            if state == BoxState::Running { Some(Span::from_millis(3_600_000)) } else { None };
        assert_eq!(state.cron(), expected);
    }
}

#[test]
fn completion_of_each_stage() {
    assert_eq!(BoxState::New.complete(), BoxState::Commissioning);
    assert_eq!(BoxState::Commissioning.complete(), BoxState::Ready);
    assert_eq!(BoxState::Ready.complete(), BoxState::Joining);
    assert_eq!(BoxState::Joining.complete(), BoxState::Running);
    assert_eq!(BoxState::Running.complete(), BoxState::Running);
    assert_eq!(BoxState::Disconnected.complete(), BoxState::Ready);
    assert_eq!(BoxState::Failed.complete(), BoxState::Failed);
}

#[test]
fn progress_orders_the_pipeline() {
    assert_eq!(BoxState::New.progress(), Some(0));
    assert_eq!(BoxState::Commissioning.progress(), Some(1));
    assert_eq!(BoxState::Ready.progress(), Some(2));
    assert_eq!(BoxState::Joining.progress(), Some(3));
    assert_eq!(BoxState::Running.progress(), Some(4));
    assert_eq!(BoxState::Disconnected.progress(), None);
    assert_eq!(BoxState::Failed.progress(), None);
    for state in ALL {
        if let Some(place) = state.progress() {
            assert!(state.next().progress().unwrap() >= place);
            assert!(state.complete().progress().unwrap() >= place);
        }
    }
}

#[test]
fn timeouts_of_stages() {
    let timing = Timing {
        new_grace: Span::from_millis(1),
        commissioning: Span::from_millis(2),
        joining: Span::from_millis(3),
        disconnected: Span::from_millis(4),
        backoff: Span::from_millis(5),
        fallback: Span::from_millis(6),
    };
    assert_eq!(timing.timeout(BoxState::New), Some(Span::from_millis(1)));
    assert_eq!(timing.timeout(BoxState::Commissioning), Some(Span::from_millis(2)));
    assert_eq!(timing.timeout(BoxState::Ready), None);
    assert_eq!(timing.timeout(BoxState::Joining), Some(Span::from_millis(3)));
    assert_eq!(timing.timeout(BoxState::Running), None);
    assert_eq!(timing.timeout(BoxState::Disconnected), Some(Span::from_millis(4)));
    assert_eq!(timing.timeout(BoxState::Failed), None);
}

#[test]
fn standard_timing() {
    let timing = Timing::standard();
    assert_eq!(timing.new_grace, Span::from_secs(30));
    assert_eq!(timing.commissioning, Span::from_mins(120));
    assert_eq!(timing.joining, Span::from_mins(120));
    assert_eq!(timing.disconnected, Span::from_mins(120));
    assert_eq!(timing.backoff, Span::from_secs(60));
    assert_eq!(timing.fallback, Span::from_mins(30));
}

#[test]
fn spans_count_milliseconds() {
    assert_eq!(Span::from_secs(2).as_millis(), 2_000);
    assert_eq!(Span::from_mins(3).as_millis(), 180_000);
    assert_eq!(Span::from_secs(u32::MAX).as_millis(), 4_294_967_295_000);
    assert_eq!(Span::from_millis(7), Span { millis: 7 });
    assert_eq!(Timestamp::from_millis(-5).as_millis(), -5);
}

#[test]
fn deadlines_are_strict() {
    let base = Timestamp::from_millis(1_000);
    let span = Span::from_millis(500);
    assert!(!Timestamp::from_millis(1_500).is_past(base, span));
    assert!(Timestamp::from_millis(1_501).is_past(base, span));
    assert!(Timestamp::from_millis(1_499).is_short_of(base, span));
    assert!(!Timestamp::from_millis(1_500).is_short_of(base, span));
}

#[test]
fn remaining_time_is_cut_off_at_both_ends() {
    let base = Timestamp::from_millis(1_000);
    let span = Span::from_millis(500);
    assert_eq!(Timestamp::from_millis(1_200).until(base, span), Span::from_millis(300));
    assert_eq!(Timestamp::from_millis(1_500).until(base, span), Span::from_millis(0));
    assert_eq!(Timestamp::from_millis(9_000).until(base, span), Span::from_millis(0));
    let far = Timestamp::from_millis(i64::MAX);
    let early = Timestamp::from_millis(i64::MIN);
    assert_eq!(early.until(far, Span::from_millis(u64::MAX)), Span::from_millis(u64::MAX));
    assert_eq!(early.until(far, Span::from_millis(0)), Span::from_millis(u64::MAX));
    assert!(!early.is_past(far, Span::from_millis(u64::MAX)));
    assert!(far.is_past(early, Span::from_millis(0)));
}
