//! One reconciliation of a node, as a decision procedure.
//!
//! A reconciliation reads the node, decides, and at most once each asks the
//! job runner to take a task and the status store to write a status. Both are
//! outside work. So the procedure comes in steps: [`Ctx::reconcile`] looks at
//! the node and says what to do first, and [`Ctx::spawned`] and
//! [`Ctx::patched`] take the answer to what was asked and say what to do
//! next, until a step says how the reconciliation ends.

use vstd::prelude::*;
use crate::node::{BoxAccessSpec, BoxAccessView, BoxCrd, BoxCrdView, BoxStatus, BoxStatusView};
use crate::state::{BoxState, Task, Timing};
use crate::text::copy_text;
use crate::time::{remaining, Span, Timestamp};

verus! {

/// The name under which every status is written.
pub const FIELD_MANAGER: &'static str = "kiss-controller";

/// When to look at a node again.
#[derive(Clone, Copy, Debug, PartialEq, Eq, Structural)]
pub enum Requeue {
    /// After this long, or earlier if the node changes.
    After(Span),
    /// Only once the node changes.
    AwaitChange,
}

/// Why a reconciliation was broken off.
#[derive(Clone, Copy, Debug, PartialEq, Eq, Structural)]
pub enum Fault {
    /// The job runner could not be asked.
    Dispatch,
    /// The status could not be written.
    Store,
}

/// What the job runner said to a task.
#[derive(Clone, Copy, Debug, PartialEq, Eq, Structural)]
pub enum GateReply {
    /// It took the task, or has it in flight already.
    Accepted,
    /// It cannot take the task now.
    Rejected,
    /// It could not be asked.
    Failed,
}

/// What the status store said to a write.
#[derive(Clone, Copy, Debug, PartialEq, Eq, Structural)]
pub enum StoreReply {
    Written,
    Failed,
}

/// A task for the job runner.
#[derive(Debug, PartialEq, Eq)]
pub struct JobRequest {
    /// The group that the node is to serve in.
    pub group: String,
    /// The name of the node.
    pub node: String,
    pub task: Task,
    /// The stage that the node enters when the job starts.
    pub new_state: BoxState,
    /// The stage that the node reaches when the task has succeeded.
    pub completed_state: BoxState,
    /// How often the task is to be repeated, if at all.
    pub cron: Option<Span>,
}

/// A write of a node's status: a forced apply under a fixed name, so that
/// writing the same status again changes nothing.
#[derive(Debug, PartialEq, Eq)]
pub struct StatusPatch {
    /// The name of the node.
    pub name: String,
    pub field_manager: &'static str,
    pub force: bool,
    pub status: BoxStatus,
}

/// What is left to do once the job runner has answered.
#[derive(Debug, PartialEq, Eq)]
pub struct Pending {
    /// The write that follows if the task was accepted. Where the task does
    /// not take the node to another stage, none follows.
    pub write: Option<StatusPatch>,
}

/// What a whole reconciliation asked of the outside world, and how it ended.
#[derive(Debug, PartialEq, Eq)]
pub struct Outcome {
    /// The task that the job runner was asked to take, if it was asked.
    pub job: Option<JobRequest>,
    /// The write that the status store was asked for, if it was asked.
    pub patch: Option<StatusPatch>,
    pub end: Result<Requeue, Fault>,
}

/// What a reconciliation does next.
#[derive(Debug, PartialEq, Eq)]
pub enum Step {
    /// Ask the job runner to take the task, and hand its answer with the rest
    /// to [`Ctx::spawned`].
    Spawn(JobRequest, Pending),
    /// Write the status, and hand the store's answer to [`Ctx::patched`].
    Patch(StatusPatch),
    /// End here.
    Done(Requeue),
    /// Break off here.
    Failed(Fault),
}

pub struct JobRequestView {
    pub group: Seq<char>,
    pub node: Seq<char>,
    pub task: Task,
    pub new_state: BoxState,
    pub completed_state: BoxState,
    pub cron: Option<Span>,
}

pub struct StatusPatchView {
    pub name: Seq<char>,
    pub field_manager: Seq<char>,
    pub force: bool,
    pub status: BoxStatusView,
}

pub struct PendingView {
    pub write: Option<StatusPatchView>,
}

pub struct OutcomeView {
    pub job: Option<JobRequestView>,
    pub patch: Option<StatusPatchView>,
    pub end: Result<Requeue, Fault>,
}

pub enum StepView {
    Spawn(JobRequestView, PendingView),
    Patch(StatusPatchView),
    Done(Requeue),
    Failed(Fault),
}

impl View for JobRequest {
    type V = JobRequestView;

    open spec fn view(&self) -> JobRequestView {
        JobRequestView {
            group: self.group@,
            node: self.node@,
            task: self.task,
            new_state: self.new_state,
            completed_state: self.completed_state,
            cron: self.cron,
        }
    }
}

impl View for StatusPatch {
    type V = StatusPatchView;

    open spec fn view(&self) -> StatusPatchView {
        StatusPatchView {
            name: self.name@,
            field_manager: self.field_manager@,
            force: self.force,
            status: self.status@,
        }
    }
}

impl View for Pending {
    type V = PendingView;

    open spec fn view(&self) -> PendingView {
        PendingView {
            write: match self.write {
                Some(patch) => Some(patch@),
                None => None,
            },
        }
    }
}

impl View for Outcome {
    type V = OutcomeView;

    open spec fn view(&self) -> OutcomeView {
        OutcomeView {
            job: match self.job {
                Some(job) => Some(job@),
                None => None,
            },
            patch: match self.patch {
                Some(patch) => Some(patch@),
                None => None,
            },
            end: self.end,
        }
    }
}

impl View for Step {
    type V = StepView;

    open spec fn view(&self) -> StepView {
        match *self {
            Step::Spawn(job, pending) => StepView::Spawn(job@, pending@),
            Step::Patch(patch) => StepView::Patch(patch@),
            Step::Done(requeue) => StepView::Done(requeue),
            Step::Failed(fault) => StepView::Failed(fault),
        }
    }
}

/// The reconciler of nodes.
#[derive(Clone, Copy, Debug)]
pub struct Ctx {
    pub timing: Timing,
}

impl Default for Ctx {
    fn default() -> (ctx: Ctx)
        ensures
            ctx.timing == Timing::standard_spec(),
    {
        Ctx { timing: Timing::standard() }
    }
}

impl Ctx {
    /// Whether the node is new and no way to reach it has been discovered.
    pub open spec fn stuck_new(node: BoxCrdView) -> bool {
        node.state() == BoxState::New && !node.reachable()
    }

    /// Whether the node has been new and out of reach for longer than a new
    /// node is given.
    pub open spec fn grace_expired(self, node: BoxCrdView, now: Timestamp) -> bool {
        &&& Self::stuck_new(node)
        &&& node.since() is Some
        &&& now@ > node.since()->0@ + self.timing.new_grace@
    }

    /// Whether the node's status is older than its stage allows.
    pub open spec fn stale(self, node: BoxCrdView, now: Timestamp) -> bool {
        &&& node.status is Some
        &&& self.timing.spec_timeout(node.state()) is Some
        &&& now@ > node.status->0.last_updated@ + self.timing.spec_timeout(node.state())->0@
    }

    /// Whether the node's status is younger than the limit of its stage.
    pub open spec fn fresh(self, node: BoxCrdView, now: Timestamp) -> bool {
        &&& node.status is Some
        &&& self.timing.spec_timeout(node.state()) is Some
        &&& now@ < node.status->0.last_updated@ + self.timing.spec_timeout(node.state())->0@
    }

    /// Whether the node runs in another group than the one asked for.
    pub open spec fn drifted(node: BoxCrdView) -> bool {
        node.state() == BoxState::Running && !node.bound_as_asked()
    }

    /// How long to leave the node alone, where there is nothing to decide
    /// yet: a new node out of reach is left until its grace period is over
    /// (for the whole period where it is not known when it began), and any
    /// other node until its status has reached the limit of its stage.
    pub open spec fn settling(self, node: BoxCrdView, now: Timestamp) -> Option<Span> {
        if Self::stuck_new(node) && !self.grace_expired(node, now) {
            match node.since() {
                Some(since) => Some(remaining(since, self.timing.new_grace, now)),
                None => Some(self.timing.new_grace),
            }
        } else if self.fresh(node, now) {
            Some(
                remaining(
                    node.status->0.last_updated,
                    self.timing.spec_timeout(node.state())->0,
                    now,
                ),
            )
        } else {
            None
        }
    }

    /// The stage that the node is to be in: `Disconnected` where it runs in
    /// the wrong group, else what its stage falls to where its time is up,
    /// else what follows its stage.
    pub open spec fn candidate(self, node: BoxCrdView, now: Timestamp) -> BoxState {
        if Self::drifted(node) {
            BoxState::Disconnected
        } else if self.grace_expired(node, now) || self.stale(node, now) {
            node.state().spec_fail()
        } else {
            node.state().spec_next()
        }
    }

    /// The write that takes the node to `state` at `now`. What is known of
    /// reaching the node and of its binding stays as it is.
    pub open spec fn patch_of(node: BoxCrdView, state: BoxState, now: Timestamp) -> StatusPatchView {
        StatusPatchView {
            name: node.name,
            field_manager: FIELD_MANAGER@,
            force: true,
            status: BoxStatusView {
                state,
                access: match node.status {
                    Some(status) => status.access,
                    None => BoxAccessView::unknown(),
                },
                bind_group: match node.status {
                    Some(status) => status.bind_group,
                    None => None,
                },
                last_updated: now,
            },
        }
    }

    /// The task that takes the node into, or keeps it in, `state`.
    pub open spec fn job_of(node: BoxCrdView, state: BoxState, task: Task) -> JobRequestView {
        JobRequestView {
            group: node.group,
            node: node.name,
            task,
            new_state: state,
            completed_state: state.spec_complete(),
            cron: state.spec_cron(),
        }
    }

    /// The first step of reconciling `node` at `now`.
    pub open spec fn plan(self, node: BoxCrdView, now: Timestamp) -> StepView {
        let state = self.candidate(node, now);
        let moves = node.state() != state;
        if self.settling(node, now) is Some {
            StepView::Done(Requeue::After(self.settling(node, now)->0))
        } else if !moves && state.spec_cron() is None {
            StepView::Done(Requeue::After(self.timing.fallback))
        } else if state.spec_as_task() is Some {
            StepView::Spawn(
                Self::job_of(node, state, state.spec_as_task()->0),
                PendingView {
                    write: if moves {
                        Some(Self::patch_of(node, state, now))
                    } else {
                        None
                    },
                },
            )
        } else if moves {
            StepView::Patch(Self::patch_of(node, state, now))
        } else {
            StepView::Done(Requeue::AwaitChange)
        }
    }

    /// The step that follows the job runner's answer.
    pub open spec fn after_gate(self, pending: PendingView, reply: GateReply) -> StepView {
        match reply {
            GateReply::Failed => StepView::Failed(Fault::Dispatch),
            GateReply::Rejected => StepView::Done(Requeue::After(self.timing.backoff)),
            GateReply::Accepted => match pending.write {
                Some(patch) => StepView::Patch(patch),
                None => StepView::Done(Requeue::AwaitChange),
            },
        }
    }

    /// The step that follows the status store's answer.
    pub open spec fn after_store(self, reply: StoreReply) -> StepView {
        match reply {
            StoreReply::Written => StepView::Done(Requeue::After(self.timing.fallback)),
            StoreReply::Failed => StepView::Failed(Fault::Store),
        }
    }

    /// A whole reconciliation of `node` at `now`, run step by step, where the
    /// job runner answers `gate` if it is asked and the status store answers
    /// `store` if it is asked.
    pub open spec fn outcome(
        self,
        node: BoxCrdView,
        now: Timestamp,
        gate: GateReply,
        store: StoreReply,
    ) -> OutcomeView {
        let first = self.plan(node, now);
        let second = match first {
            StepView::Spawn(_, pending) => self.after_gate(pending, gate),
            _ => first,
        };
        let last = match second {
            StepView::Patch(_) => self.after_store(store),
            _ => second,
        };
        OutcomeView {
            job: match first {
                StepView::Spawn(job, _) => Some(job),
                _ => None,
            },
            patch: match second {
                StepView::Patch(patch) => Some(patch),
                _ => None,
            },
            end: match last {
                StepView::Done(requeue) => Ok(requeue),
                StepView::Failed(fault) => Err(fault),
                // no answer leads to another question of the same kind
                StepView::Spawn(_, _) => Err(Fault::Dispatch),
                StepView::Patch(_) => Err(Fault::Store),
            },
        }
    }

    /// The node as such a reconciliation leaves it: with the status that was
    /// written, if one was, and as it was before, if none was.
    pub open spec fn left_by(
        self,
        node: BoxCrdView,
        now: Timestamp,
        gate: GateReply,
        store: StoreReply,
    ) -> BoxCrdView {
        match self.outcome(node, now, gate, store).patch {
            Some(patch) if store == StoreReply::Written => node.with_status(patch.status),
            _ => node,
        }
    }

    fn patch_for(node: &BoxCrd, state: BoxState, now: Timestamp) -> (patch: StatusPatch)
        ensures
            patch@ == Self::patch_of(node@, state, now),
    {
        let (access, bind_group) = match &node.status {
            Some(status) => (status.access.clone(), copy_text(&status.bind_group)),
            None => (BoxAccessSpec::default(), None),
        };
        StatusPatch {
            name: node.name.clone(),
            field_manager: FIELD_MANAGER,
            force: true,
            status: BoxStatus { state, access, bind_group, last_updated: now },
        }
    }

    /// Looks at `node` at `now` and says what to do first.
    pub fn reconcile(&self, node: &BoxCrd, now: Timestamp) -> (step: Step)
        ensures
            step@ == self.plan(node@, now),
    {
        let old_state = node.state();
        let mut new_state = old_state.next();

        // a new node that cannot be reached yet is given some time
        if old_state == BoxState::New && !node.reachable() {
            let grace = self.timing.new_grace;
            match node.since() {
                Some(since) => {
                    if now.is_past(since, grace) {
                        new_state = old_state.fail();
                    } else {
                        return Step::Done(Requeue::After(now.until(since, grace)));
                    }
                },
                None => {
                    return Step::Done(Requeue::After(grace));
                },
            }
        }

        if let Some(status) = &node.status {
            if let Some(limit) = self.timing.timeout(old_state) {
                // the status is young: whoever wrote it is still at work
                if now.is_short_of(status.last_updated, limit) {
                    return Step::Done(Requeue::After(now.until(status.last_updated, limit)));
                }
                // the status is too old: give the stage up
                if now.is_past(status.last_updated, limit) {
                    new_state = old_state.fail();
                }
            }
        }

        // the group that the node runs in is no longer the one asked for
        if old_state == BoxState::Running && !node.bound_as_asked() {
            new_state = BoxState::Disconnected;
        }

        if old_state != new_state || new_state.cron().is_some() {
            let write = if old_state != new_state {
                Some(Self::patch_for(node, new_state, now))
            } else {
                None
            };
            if let Some(task) = new_state.as_task() {
                let job = JobRequest {
                    group: node.spec.group.clone(),
                    node: node.name.clone(),
                    task,
                    new_state,
                    completed_state: new_state.complete(),
                    cron: new_state.cron(),
                };
                return Step::Spawn(job, Pending { write });
            }
            return match write {
                Some(patch) => Step::Patch(patch),
                None => Step::Done(Requeue::AwaitChange),
            };
        }

        Step::Done(Requeue::After(self.timing.fallback))
    }

    /// Takes the job runner's answer and says what to do next: break off
    /// where it could not be asked, come back later without writing where it
    /// turned the task down, and go on with what was pending where it took
    /// the task.
    pub fn spawned(&self, pending: Pending, reply: GateReply) -> (step: Step)
        ensures
            step@ == self.after_gate(pending@, reply),
    {
        match reply {
            GateReply::Failed => Step::Failed(Fault::Dispatch),
            GateReply::Rejected => Step::Done(Requeue::After(self.timing.backoff)),
            GateReply::Accepted => match pending.write {
                Some(patch) => Step::Patch(patch),
                None => Step::Done(Requeue::AwaitChange),
            },
        }
    }

    /// Takes the status store's answer and says how the reconciliation ends.
    pub fn patched(&self, reply: StoreReply) -> (step: Step)
        ensures
            step@ == self.after_store(reply),
    {
        match reply {
            StoreReply::Written => Step::Done(Requeue::After(self.timing.fallback)),
            StoreReply::Failed => Step::Failed(Fault::Store),
        }
    }

    /// Reconciles `node` at `now` from the first step to the last, with the
    /// answers of the job runner and of the status store known beforehand,
    /// and says what they were asked and how it ended.
    pub fn rehearse(
        &self,
        node: &BoxCrd,
        now: Timestamp,
        gate: GateReply,
        store: StoreReply,
    ) -> (outcome: Outcome)
        ensures
            outcome@ == self.outcome(node@, now, gate, store),
    {
        let (job, second) = match self.reconcile(node, now) {
            Step::Spawn(job, pending) => (Some(job), self.spawned(pending, gate)),
            first => (None, first),
        };
        let (patch, last) = match second {
            Step::Patch(patch) => (Some(patch), self.patched(store)),
            second => (None, second),
        };
        let end = match last {
            Step::Done(requeue) => Ok(requeue),
            Step::Failed(fault) => Err(fault),
            Step::Spawn(_, _) => Err(Fault::Dispatch),
            Step::Patch(_) => Err(Fault::Store),
        };
        Outcome { job, patch, end }
    }
}

} // verus!
