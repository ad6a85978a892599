use kiss_controller::ctx::{
    Ctx, Fault, GateReply, JobRequest, Outcome, Pending, Requeue, StatusPatch, Step, StoreReply,
    FIELD_MANAGER,
};
use kiss_controller::node::{BoxAccessSpec, BoxCrd, BoxSpec, BoxStatus};
use kiss_controller::state::{BoxState, Task, Timing};
use kiss_controller::time::{Span, Timestamp};

const T0: i64 = 1_700_000_000_000;
const SECOND: i64 = 1_000;
const MINUTE: i64 = 60_000;

fn timing() -> Timing {
    Timing {
        new_grace: Span::from_mins(10),
        commissioning: Span::from_mins(5),
        joining: Span::from_mins(5),
        disconnected: Span::from_mins(5),
        backoff: Span::from_secs(60),
        fallback: Span::from_mins(30),
    }
}

fn ctx() -> Ctx {
    Ctx { timing: timing() }
}

fn at(millis: i64) -> Timestamp {
    Timestamp::from_millis(millis)
}

fn node(name: &str, group: &str, status: Option<BoxStatus>, created: Option<i64>) -> BoxCrd {
    BoxCrd {
        name: name.to_string(),
        spec: BoxSpec { group: group.to_string() },
        status,
        creation_timestamp: created.map(at),
    }
}

fn status(state: BoxState, primary: Option<&str>, bind_group: Option<&str>, updated: i64) -> BoxStatus {
    BoxStatus {
        state,
        access: BoxAccessSpec { primary: primary.map(|address| address.to_string()) },
        bind_group: bind_group.map(|group| group.to_string()),
        last_updated: at(updated),
    }
}

fn patch(name: &str, status: BoxStatus) -> StatusPatch {
    StatusPatch { name: name.to_string(), field_manager: "kiss-controller", force: true, status }
}

#[test]
fn new_node_without_access_fails_after_grace() {
    let n1 = node("n1", "default", None, Some(T0));
    let now = T0 + 11 * MINUTE;
    let step = ctx().reconcile(&n1, at(now));
    assert_eq!(step, Step::Patch(patch("n1", status(BoxState::Failed, None, None, now))));
    assert_eq!(
        ctx().patched(StoreReply::Written),
        Step::Done(Requeue::After(Span::from_mins(30)))
    );
}

#[test]
fn new_node_with_status_but_no_access_fails_after_grace() {
    let n1 = node("n1", "default", Some(status(BoxState::New, None, Some("default"), T0)), None);
    let now = T0 + 11 * MINUTE;
    let step = ctx().reconcile(&n1, at(now));
    assert_eq!(
        step,
        Step::Patch(patch("n1", status(BoxState::Failed, None, Some("default"), now)))
    );
}

#[test]
fn stuck_new_node_waits_out_its_grace() {
    let n = node("n", "default", None, Some(T0));
    let before = ctx().reconcile(&n, at(T0 + 10 * MINUTE - SECOND));
    assert_eq!(before, Step::Done(Requeue::After(Span::from_secs(1))));
    let on_time = ctx().reconcile(&n, at(T0 + 10 * MINUTE));
    assert_eq!(on_time, Step::Done(Requeue::After(Span::from_millis(0))));
    let after = ctx().reconcile(&n, at(T0 + 10 * MINUTE + SECOND));
    assert_eq!(
        after,
        Step::Patch(patch("n", status(BoxState::Failed, None, None, T0 + 10 * MINUTE + SECOND)))
    );
}

#[test]
fn new_node_of_unknown_age_waits_a_whole_grace() {
    let n = node("n", "default", None, None);
    assert_eq!(ctx().reconcile(&n, at(T0)), Step::Done(Requeue::After(Span::from_mins(10))));
}

#[test]
fn working_node_within_its_limit_is_left_alone() {
    let n2 = node(
        "n2",
        "default",
        Some(status(BoxState::Commissioning, Some("10.0.0.2"), None, T0)),
        Some(T0 - MINUTE),
    );
    assert_eq!(
        ctx().reconcile(&n2, at(T0 + MINUTE)),
        Step::Done(Requeue::After(Span::from_mins(4)))
    );
}

#[test]
fn accepted_task_without_stage_change_awaits_change() {
    let n2 = node(
        "n2",
        "edge",
        Some(status(BoxState::Running, Some("10.0.0.2"), Some("edge"), T0)),
        None,
    );
    let step = ctx().reconcile(&n2, at(T0 + MINUTE));
    let expected_job = JobRequest {
        group: "edge".to_string(),
        node: "n2".to_string(),
        task: Task::Ping,
        new_state: BoxState::Running,
        completed_state: BoxState::Running,
        cron: Some(Span::from_mins(60)),
    };
    match step {
        Step::Spawn(job, pending) => {
            assert_eq!(job, expected_job);
            assert_eq!(pending, Pending { write: None });
            assert_eq!(
                ctx().spawned(pending, GateReply::Accepted),
                Step::Done(Requeue::AwaitChange)
            );
        }
        other => panic!("expected a task, got {:?}", other),
    }
}

#[test]
fn stale_working_node_fails() {
    let n = node(
        "n",
        "default",
        Some(status(BoxState::Joining, Some("10.0.0.3"), None, T0)),
        None,
    );
    let now = T0 + 5 * MINUTE + 1;
    assert_eq!(
        ctx().reconcile(&n, at(now)),
        Step::Patch(patch("n", status(BoxState::Failed, Some("10.0.0.3"), None, now)))
    );
}

#[test]
fn working_node_exactly_at_its_limit_is_neither_fresh_nor_stale() {
    let n = node(
        "n",
        "default",
        Some(status(BoxState::Joining, Some("10.0.0.3"), None, T0)),
        None,
    );
    assert_eq!(
        ctx().reconcile(&n, at(T0 + 5 * MINUTE)),
        Step::Done(Requeue::After(Span::from_mins(30)))
    );
}

#[test]
fn failed_node_stays_failed() {
    let n = node("n", "default", Some(status(BoxState::Failed, None, None, T0)), None);
    for elapsed in [0, MINUTE, 1_000 * MINUTE] {
        assert_eq!(
            ctx().reconcile(&n, at(T0 + elapsed)),
            Step::Done(Requeue::After(Span::from_mins(30)))
        );
    }
}

#[test]
fn drifted_node_is_disconnected_whatever_the_time() {
    let n = node(
        "n",
        "B",
        Some(status(BoxState::Running, Some("10.0.0.4"), Some("A"), T0)),
        None,
    );
    for elapsed in [-MINUTE, 0, 1, 7 * MINUTE, 100_000 * MINUTE] {
        let now = T0 + elapsed;
        let written = patch("n", status(BoxState::Disconnected, Some("10.0.0.4"), Some("A"), now));
        match ctx().reconcile(&n, at(now)) {
            Step::Spawn(job, pending) => {
                assert_eq!(job.task, Task::Reset);
                assert_eq!(job.group, "B");
                assert_eq!(job.node, "n");
                assert_eq!(job.new_state, BoxState::Disconnected);
                assert_eq!(job.completed_state, BoxState::Ready);
                assert_eq!(job.cron, None);
                assert_eq!(ctx().spawned(pending, GateReply::Accepted), Step::Patch(written));
            }
            other => panic!("expected a task, got {:?}", other),
        }
    }
}

#[test]
fn running_node_without_binding_counts_as_drifted() {
    let n = node("n", "B", Some(status(BoxState::Running, Some("10.0.0.4"), None, T0)), None);
    match ctx().reconcile(&n, at(T0)) {
        Step::Spawn(job, _) => assert_eq!(job.new_state, BoxState::Disconnected),
        other => panic!("expected a task, got {:?}", other),
    }
}

#[test]
fn rejected_task_backs_off_without_writing() {
    let n = node("n", "default", Some(status(BoxState::Ready, Some("10.0.0.5"), None, T0)), None);
    match ctx().reconcile(&n, at(T0 + MINUTE)) {
        Step::Spawn(job, pending) => {
            assert_eq!(job.task, Task::Join);
            assert!(pending.write.is_some());
            assert_eq!(
                ctx().spawned(pending, GateReply::Rejected),
                Step::Done(Requeue::After(Span::from_secs(60)))
            );
        }
        other => panic!("expected a task, got {:?}", other),
    }
}

#[test]
fn ready_node_joins() {
    let n = node(
        "n",
        "default",
        Some(status(BoxState::Ready, Some("10.0.0.5"), Some("old"), T0)),
        None,
    );
    let now = T0 + 3 * MINUTE;
    match ctx().reconcile(&n, at(now)) {
        Step::Spawn(job, pending) => {
            assert_eq!(
                job,
                JobRequest {
                    group: "default".to_string(),
                    node: "n".to_string(),
                    task: Task::Join,
                    new_state: BoxState::Joining,
                    completed_state: BoxState::Running,
                    cron: None,
                }
            );
            let step = ctx().spawned(pending, GateReply::Accepted);
            assert_eq!(
                step,
                Step::Patch(patch(
                    "n",
                    status(BoxState::Joining, Some("10.0.0.5"), Some("old"), now)
                ))
            );
        }
        other => panic!("expected a task, got {:?}", other),
    }
}

#[test]
fn reachable_new_node_is_commissioned_once_its_status_has_aged() {
    let n = node("n", "default", Some(status(BoxState::New, Some("10.0.0.6"), None, T0)), None);
    assert_eq!(
        ctx().reconcile(&n, at(T0 + MINUTE)),
        Step::Done(Requeue::After(Span::from_mins(9)))
    );
    match ctx().reconcile(&n, at(T0 + 10 * MINUTE)) {
        Step::Spawn(job, pending) => {
            assert_eq!(job.task, Task::Commission);
            assert_eq!(job.new_state, BoxState::Commissioning);
            assert_eq!(job.completed_state, BoxState::Ready);
            assert_eq!(
                pending.write.map(|patch| patch.status.state),
                Some(BoxState::Commissioning)
            );
        }
        other => panic!("expected a task, got {:?}", other),
    }
}

#[test]
fn faults_break_the_reconciliation_off() {
    let n = node("n", "default", Some(status(BoxState::Ready, Some("10.0.0.5"), None, T0)), None);
    match ctx().reconcile(&n, at(T0)) {
        Step::Spawn(_, pending) => {
            assert_eq!(ctx().spawned(pending, GateReply::Failed), Step::Failed(Fault::Dispatch));
        }
        other => panic!("expected a task, got {:?}", other),
    }
    assert_eq!(ctx().patched(StoreReply::Failed), Step::Failed(Fault::Store));
}

#[test]
fn every_write_is_a_forced_apply_under_the_same_name() {
    assert_eq!(FIELD_MANAGER, "kiss-controller");
    let n = node("n", "default", None, Some(T0));
    match ctx().reconcile(&n, at(T0 + 20 * MINUTE)) {
        Step::Patch(patch) => {
            assert_eq!(patch.field_manager, FIELD_MANAGER);
            assert!(patch.force);
            assert_eq!(patch.name, "n");
        }
        other => panic!("expected a write, got {:?}", other),
    }
}

fn settle(ctx: &Ctx, node: &mut BoxCrd, now: Timestamp, gate: GateReply) -> (usize, Step) {
    let mut writes = 0;
    let mut step = ctx.reconcile(node, now);
    loop {
        step = match step {
            Step::Spawn(_, pending) => ctx.spawned(pending, gate),
            Step::Patch(patch) => {
                node.status = Some(patch.status);
                writes += 1;
                ctx.patched(StoreReply::Written)
            }
            end => return (writes, end),
        };
    }
}

#[test]
fn second_reconcile_at_the_same_instant_writes_nothing() {
    let starts = [
        node("a", "default", None, Some(T0 - 20 * MINUTE)),
        node("b", "default", Some(status(BoxState::Ready, Some("10.0.0.7"), None, T0)), None),
        node("c", "B", Some(status(BoxState::Running, Some("10.0.0.8"), Some("A"), T0)), None),
        node("d", "default", Some(status(BoxState::Joining, None, None, T0 - 6 * MINUTE)), None),
    ];
    for mut node in starts {
        let (writes, _) = settle(&ctx(), &mut node, at(T0), GateReply::Accepted);
        assert_eq!(writes, 1);
        let (writes, end) = settle(&ctx(), &mut node, at(T0), GateReply::Accepted);
        assert_eq!(writes, 0);
        assert!(matches!(end, Step::Done(Requeue::After(_))));
    }
}

#[test]
fn idle_reconcile_repeats_itself() {
    let mut n = node("n", "default", Some(status(BoxState::Joining, None, None, T0)), None);
    let first = settle(&ctx(), &mut n, at(T0 + MINUTE), GateReply::Accepted);
    let second = settle(&ctx(), &mut n, at(T0 + MINUTE), GateReply::Accepted);
    assert_eq!(first, (0, Step::Done(Requeue::After(Span::from_mins(4)))));
    assert_eq!(first, second);
}

#[test]
fn status_without_a_time_stands_for_no_status() {
    let access = BoxAccessSpec { primary: Some("10.0.0.9".to_string()) };
    assert_eq!(BoxStatus::observed(BoxState::Running, access, None, None), None);
    let access = BoxAccessSpec { primary: Some("10.0.0.9".to_string()) };
    assert_eq!(
        BoxStatus::observed(BoxState::Running, access, Some("g".to_string()), Some(at(T0))),
        Some(status(BoxState::Running, Some("10.0.0.9"), Some("g"), T0))
    );
}

#[test]
fn node_accessors() {
    let fresh = node("n", "g", None, Some(T0));
    assert_eq!(fresh.state(), BoxState::New);
    assert!(!fresh.reachable());
    assert_eq!(fresh.since(), Some(at(T0)));
    assert!(!fresh.bound_as_asked());
    let bound = node("n", "g", Some(status(BoxState::Running, Some("a"), Some("g"), T0 + 5)), Some(T0));
    assert_eq!(bound.state(), BoxState::Running);
    assert!(bound.reachable());
    assert_eq!(bound.since(), Some(at(T0 + 5)));
    assert!(bound.bound_as_asked());
    let copy = bound.status.clone();
    assert_eq!(copy, bound.status);
}

#[test]
fn default_context_uses_the_standard_timing() {
    let ctx = Ctx::default();
    assert_eq!(ctx.timing, Timing::standard());
    assert_eq!(ctx.timing.backoff, Span::from_secs(60));
}

#[test]
fn rehearsal_of_a_failing_new_node() {
    let n1 = node("n1", "default", None, Some(T0));
    let now = T0 + 11 * MINUTE;
    for gate in [GateReply::Accepted, GateReply::Rejected, GateReply::Failed] {
        assert_eq!(
            ctx().rehearse(&n1, at(now), gate, StoreReply::Written),
            Outcome {
                job: None,
                patch: Some(patch("n1", status(BoxState::Failed, None, None, now))),
                end: Ok(Requeue::After(Span::from_mins(30))),
            }
        );
    }
    assert_eq!(
        ctx().rehearse(&n1, at(now), GateReply::Accepted, StoreReply::Failed).end,
        Err(Fault::Store)
    );
}

#[test]
fn rehearsal_of_a_joining_node() {
    let n = node("n", "default", Some(status(BoxState::Ready, Some("10.0.0.5"), None, T0)), None);
    let job = JobRequest {
        group: "default".to_string(),
        node: "n".to_string(),
        task: Task::Join,
        new_state: BoxState::Joining,
        completed_state: BoxState::Running,
        cron: None,
    };
    let accepted = ctx().rehearse(&n, at(T0 + 1), GateReply::Accepted, StoreReply::Written);
    assert_eq!(accepted.job.as_ref(), Some(&job));
    assert_eq!(
        accepted.patch,
        Some(patch("n", status(BoxState::Joining, Some("10.0.0.5"), None, T0 + 1)))
    );
    assert_eq!(accepted.end, Ok(Requeue::After(Span::from_mins(30))));

    let rejected = ctx().rehearse(&n, at(T0 + 1), GateReply::Rejected, StoreReply::Written);
    assert_eq!(
        rejected,
        Outcome { job: Some(job), patch: None, end: Ok(Requeue::After(Span::from_secs(60))) }
    );

    let failed = ctx().rehearse(&n, at(T0 + 1), GateReply::Failed, StoreReply::Written);
    assert_eq!(failed.patch, None);
    assert_eq!(failed.end, Err(Fault::Dispatch));
}

#[test]
fn rehearsal_of_a_running_node() {
    let n = node("n", "g", Some(status(BoxState::Running, Some("10.0.0.5"), Some("g"), T0)), None);
    let outcome = ctx().rehearse(&n, at(T0 + 90 * MINUTE), GateReply::Accepted, StoreReply::Written);
    assert_eq!(outcome.job.map(|job| job.task), Some(Task::Ping));
    assert_eq!(outcome.patch, None);
    assert_eq!(outcome.end, Ok(Requeue::AwaitChange));
}
