//! What holds of every reconciliation.

use vstd::prelude::*;
use crate::ctx::{
    Ctx, Fault, GateReply, OutcomeView, PendingView, Requeue, StepView, StoreReply, FIELD_MANAGER,
};
use crate::node::BoxCrdView;
use crate::state::{BoxState, Task};
use crate::time::{remaining, Timestamp};

verus! {

/// A node whose status is older than the limit of its stage is given up on,
/// whatever would follow its stage otherwise: the stage it falls to is
/// written, and nobody is asked to work on it.
pub proof fn stale_node_fails(
    ctx: Ctx,
    node: BoxCrdView,
    now: Timestamp,
    gate: GateReply,
    store: StoreReply,
)
    requires
        node.status is Some,
        ctx.timing.spec_timeout(node.state()) is Some,
        now@ > node.status->0.last_updated@ + ctx.timing.spec_timeout(node.state())->0@,
    ensures
        ctx.candidate(node, now) == node.state().spec_fail(),
        ctx.plan(node, now) == StepView::Patch(Ctx::patch_of(node, node.state().spec_fail(), now)),
        ctx.outcome(node, now, gate, store).job is None,
        ctx.outcome(node, now, gate, store).patch == Some(
            Ctx::patch_of(node, BoxState::Failed, now),
        ),
{
}

/// A running node stays running unless it runs in the wrong group, and a
/// failed node stays failed: neither is ever written to, and only the running
/// one gives the job runner something to do.
pub proof fn settled_stages_stay(
    ctx: Ctx,
    node: BoxCrdView,
    now: Timestamp,
    gate: GateReply,
    store: StoreReply,
)
    requires
        node.state() == BoxState::Running || node.state() == BoxState::Failed,
        !Ctx::drifted(node),
    ensures
        node.state().spec_next() == node.state(),
        ctx.candidate(node, now) == node.state(),
        ctx.outcome(node, now, gate, store).patch is None,
        node.state() == BoxState::Failed ==> ctx.plan(node, now) == StepView::Done(
            Requeue::After(ctx.timing.fallback),
        ),
        node.state() == BoxState::Running ==> ctx.plan(node, now) == StepView::Spawn(
            Ctx::job_of(node, BoxState::Running, Task::Ping),
            PendingView { write: None },
        ),
{
}

/// What a reconciliation does depends on nothing but the node, the time and
/// the answers it gets. So one that wrote nothing leaves the node as it was,
/// and another one at the same instant does and returns the same.
pub proof fn idle_reconcile_repeats(
    ctx: Ctx,
    node: BoxCrdView,
    now: Timestamp,
    gate: GateReply,
    store: StoreReply,
)
    requires
        ctx.outcome(node, now, gate, store).patch is None,
    ensures
        ctx.left_by(node, now, gate, store) == node,
        ctx.outcome(ctx.left_by(node, now, gate, store), now, gate, store) == ctx.outcome(
            node,
            now,
            gate,
            store,
        ),
{
}

/// Once a reconciliation has written a status, another one at the same
/// instant finds nothing to do: it asks for no task and no write, and says
/// when to come back.
pub proof fn written_node_rests(
    ctx: Ctx,
    node: BoxCrdView,
    now: Timestamp,
    gate: GateReply,
    store: StoreReply,
)
    requires
        ctx.outcome(node, now, gate, store).patch is Some,
        store == StoreReply::Written,
    ensures
        ({
            let again = ctx.outcome(ctx.left_by(node, now, gate, store), now, gate, store);
            &&& again.job is None
            &&& again.patch is None
            &&& again.end is Ok
            &&& again.end->Ok_0 is After
        }),
{
}

/// A node that runs in another group than the one asked for is taken to
/// `Disconnected`, whatever the time: the reset task is handed to the job
/// runner and, once it is accepted, the new stage is written.
pub proof fn drift_disconnects(ctx: Ctx, node: BoxCrdView, now: Timestamp, store: StoreReply)
    requires
        node.state() == BoxState::Running,
        !node.bound_as_asked(),
    ensures
        ctx.candidate(node, now) == BoxState::Disconnected,
        ctx.plan(node, now) == StepView::Spawn(
            Ctx::job_of(node, BoxState::Disconnected, Task::Reset),
            PendingView { write: Some(Ctx::patch_of(node, BoxState::Disconnected, now)) },
        ),
        ctx.outcome(node, now, GateReply::Accepted, store).patch == Some(
            Ctx::patch_of(node, BoxState::Disconnected, now),
        ),
{
}

/// Where the job runner is asked and turns the task down, nothing is written
/// and the node is looked at again after the back-off.
pub proof fn rejection_backs_off(ctx: Ctx, node: BoxCrdView, now: Timestamp, store: StoreReply)
    requires
        ctx.plan(node, now) is Spawn,
    ensures
        ctx.outcome(node, now, GateReply::Rejected, store).job is Some,
        ctx.outcome(node, now, GateReply::Rejected, store).patch is None,
        ctx.left_by(node, now, GateReply::Rejected, store) == node,
        ctx.outcome(node, now, GateReply::Rejected, store).end == Ok::<Requeue, Fault>(
            Requeue::After(ctx.timing.backoff),
        ),
{
}

/// A new node out of reach is left alone until its grace period is over, and
/// given up on after that.
pub proof fn new_node_grace(
    ctx: Ctx,
    node: BoxCrdView,
    now: Timestamp,
    gate: GateReply,
    store: StoreReply,
)
    requires
        Ctx::stuck_new(node),
        node.since() is Some,
    ensures
        now@ <= node.since()->0@ + ctx.timing.new_grace@ ==> ctx.outcome(node, now, gate, store)
            == (OutcomeView {
            job: None,
            patch: None,
            end: Ok(Requeue::After(remaining(node.since()->0, ctx.timing.new_grace, now))),
        }),
        now@ < node.since()->0@ + ctx.timing.new_grace@ ==> remaining(
            node.since()->0,
            ctx.timing.new_grace,
            now,
        )@ > 0,
        now@ > node.since()->0@ + ctx.timing.new_grace@ ==> {
            &&& ctx.outcome(node, now, gate, store).job is None
            &&& ctx.outcome(node, now, gate, store).patch == Some(
                Ctx::patch_of(node, BoxState::Failed, now),
            )
        },
{
}

/// A status is written only to take the node to another stage, and the new
/// stage is what follows the old one, what the old one falls to, or
/// `Disconnected` for a running node. The write goes to the node that was
/// looked at, forced and under the fixed name, is stamped with the time of
/// the reconciliation and keeps what was known of reaching and binding the
/// node.
pub proof fn writes_change_stage(
    ctx: Ctx,
    node: BoxCrdView,
    now: Timestamp,
    gate: GateReply,
    store: StoreReply,
)
    requires
        ctx.outcome(node, now, gate, store).patch is Some,
    ensures
        ({
            let patch = ctx.outcome(node, now, gate, store).patch->0;
            let state = patch.status.state;
            &&& state != node.state()
            &&& state == ctx.candidate(node, now)
            &&& (state == node.state().spec_next() || state == node.state().spec_fail() || (state
                == BoxState::Disconnected && node.state() == BoxState::Running))
            &&& patch == Ctx::patch_of(node, state, now)
            &&& patch.name == node.name
            &&& patch.field_manager == FIELD_MANAGER@
            &&& patch.force
            &&& patch.status.last_updated == now
            &&& node.status is Some ==> patch.status.access == node.status->0.access
                && patch.status.bind_group == node.status->0.bind_group
        }),
{
}

/// A task is handed to the job runner only for the stage that the node is to
/// be in, with what belongs to that stage, and a write follows an accepted
/// task exactly where that stage is not the one the node is in.
pub proof fn jobs_fit_stage(
    ctx: Ctx,
    node: BoxCrdView,
    now: Timestamp,
    gate: GateReply,
    store: StoreReply,
)
    requires
        ctx.outcome(node, now, gate, store).job is Some,
    ensures
        ({
            let out = ctx.outcome(node, now, gate, store);
            let job = out.job->0;
            &&& job.new_state == ctx.candidate(node, now)
            &&& job.new_state.spec_as_task() == Some(job.task)
            &&& job.completed_state == job.new_state.spec_complete()
            &&& job.cron == job.new_state.spec_cron()
            &&& job.node == node.name
            &&& job.group == node.group
            &&& out.patch is Some <==> gate == GateReply::Accepted && job.new_state != node.state()
            &&& gate == GateReply::Accepted && job.new_state == node.state() ==> out.end == Ok::<
                Requeue,
                Fault,
            >(Requeue::AwaitChange)
        }),
{
}

/// A reconciliation is broken off exactly where the job runner or the status
/// store could not be asked, and then nothing has been written.
pub proof fn faults_write_nothing(
    ctx: Ctx,
    node: BoxCrdView,
    now: Timestamp,
    gate: GateReply,
    store: StoreReply,
)
    ensures
        ({
            let out = ctx.outcome(node, now, gate, store);
            &&& out.end == Err::<Requeue, Fault>(Fault::Dispatch) <==> out.job is Some && gate
                == GateReply::Failed
            &&& out.end == Err::<Requeue, Fault>(Fault::Store) <==> out.patch is Some && store
                == StoreReply::Failed
            &&& out.end is Err ==> ctx.left_by(node, now, gate, store) == node
        }),
{
}

/// No answer leads to another question of the same kind: after the job
/// runner has answered, it is not asked again, and after the status store
/// has answered, the reconciliation is over. So a reconciliation asks for at
/// most one task and for at most one write.
pub proof fn no_question_twice(ctx: Ctx, pending: PendingView, gate: GateReply, store: StoreReply)
    ensures
        !(ctx.after_gate(pending, gate) is Spawn),
        ctx.after_store(store) is Done || ctx.after_store(store) is Failed,
{
}

/// While the clock has not gone back behind the node's status, a write never
/// takes the time of the status back.
pub proof fn status_time_moves_on(
    ctx: Ctx,
    node: BoxCrdView,
    now: Timestamp,
    gate: GateReply,
    store: StoreReply,
)
    requires
        node.status is Some,
        now@ >= node.status->0.last_updated@,
    ensures
        ctx.left_by(node, now, gate, store).status is Some,
        ctx.left_by(node, now, gate, store).status->0.last_updated@
            >= node.status->0.last_updated@,
{
}

} // verus!
