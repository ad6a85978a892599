//! The lifecycle of a node: its stages, how one stage follows another, and
//! what each stage asks of the outside world.
//!
//! A stage either *rests* (the reconciler moves the node on by itself) or
//! *works* (an outside task is in flight; the node stays where it is until the
//! task reports completion or the stage's time runs out).

use vstd::prelude::*;
use crate::time::Span;

verus! {

/// A stage in the life of a node.
#[derive(Clone, Copy, Debug, PartialEq, Eq, Hash, Structural)]
pub enum BoxState {
    /// Just discovered; nothing has been done to it yet.
    New,
    /// The commissioning task is in flight.
    Commissioning,
    /// Commissioned and waiting to join its group.
    Ready,
    /// The join task is in flight.
    Joining,
    /// Serving in its group.
    Running,
    /// Bound to a group that is no longer the one asked for; the reset task
    /// is in flight.
    Disconnected,
    /// Given up on. Nothing leads out of this stage.
    Failed,
}

/// The outside work that goes with a stage.
#[derive(Clone, Copy, Debug, PartialEq, Eq, Hash, Structural)]
pub enum Task {
    Commission,
    Join,
    Ping,
    Reset,
}

/// How often a running node is looked at again, in milliseconds.
pub const REVALIDATE_MILLIS: u64 = 3_600_000;

impl Task {
    /// The name under which the job runner knows the task.
    pub fn name(&self) -> (name: &'static str)
        ensures
            name@ == match *self {
                Task::Commission => "commission"@,
                Task::Join => "join"@,
                Task::Ping => "ping"@,
                Task::Reset => "reset"@,
            },
    {
        match self {
            Task::Commission => "commission",
            Task::Join => "join",
            Task::Ping => "ping",
            Task::Reset => "reset",
        }
    }
}

impl BoxState {
    /// The stage that follows on the happy path without outside help. A
    /// working stage follows itself: only its task's completion moves it on.
    pub open spec fn spec_next(self) -> BoxState {
        match self {
            BoxState::New => BoxState::Commissioning,
            BoxState::Commissioning => BoxState::Commissioning,
            BoxState::Ready => BoxState::Joining,
            BoxState::Joining => BoxState::Joining,
            BoxState::Running => BoxState::Running,
            BoxState::Disconnected => BoxState::Disconnected,
            BoxState::Failed => BoxState::Failed,
        }
    }

    /// The stage a node falls to when this stage is given up on.
    pub open spec fn spec_fail(self) -> BoxState {
        BoxState::Failed
    }

    /// The task to submit when a node enters, or is looked at again in, this
    /// stage.
    pub open spec fn spec_as_task(self) -> Option<Task> {
        match self {
            BoxState::Commissioning => Some(Task::Commission),
            BoxState::Joining => Some(Task::Join),
            BoxState::Running => Some(Task::Ping),
            BoxState::Disconnected => Some(Task::Reset),
            BoxState::New | BoxState::Ready | BoxState::Failed => None,
        }
    }

    /// How often a node in this stage is looked at again although nothing
    /// about it changed.
    pub open spec fn spec_cron(self) -> Option<Span> {
        match self {
            BoxState::Running => Some(Span { millis: REVALIDATE_MILLIS }),
            _ => None,
        }
    }

    /// The stage a node reaches when the task of this stage has succeeded.
    /// For a stage without a task this is the stage that follows anyway.
    pub open spec fn spec_complete(self) -> BoxState {
        match self {
            BoxState::Commissioning => BoxState::Ready,
            BoxState::Joining => BoxState::Running,
            BoxState::Disconnected => BoxState::Ready,
            _ => self.spec_next(),
        }
    }

    /// How far along the provisioning pipeline this stage is. The two stages
    /// that branch off the pipeline have no place in it.
    pub open spec fn spec_progress(self) -> Option<u8> {
        match self {
            BoxState::New => Some(0u8),
            BoxState::Commissioning => Some(1u8),
            BoxState::Ready => Some(2u8),
            BoxState::Joining => Some(3u8),
            BoxState::Running => Some(4u8),
            BoxState::Disconnected | BoxState::Failed => None,
        }
    }

    #[verifier::when_used_as_spec(spec_next)]
    pub fn next(self) -> (state: BoxState)
        ensures
            state == self.spec_next(),
    {
        match self {
            BoxState::New => BoxState::Commissioning,
            BoxState::Ready => BoxState::Joining,
            state => state,
        }
    }

    #[verifier::when_used_as_spec(spec_fail)]
    pub fn fail(self) -> (state: BoxState)
        ensures
            state == self.spec_fail(),
    {
        BoxState::Failed
    }

    #[verifier::when_used_as_spec(spec_as_task)]
    pub fn as_task(self) -> (task: Option<Task>)
        ensures
            task == self.spec_as_task(),
    {
        match self {
            BoxState::Commissioning => Some(Task::Commission),
            BoxState::Joining => Some(Task::Join),
            BoxState::Running => Some(Task::Ping),
            BoxState::Disconnected => Some(Task::Reset),
            _ => None,
        }
    }

    #[verifier::when_used_as_spec(spec_cron)]
    pub fn cron(self) -> (cadence: Option<Span>)
        ensures
            cadence == self.spec_cron(),
    {
        match self {
            BoxState::Running => Some(Span { millis: REVALIDATE_MILLIS }),
            _ => None,
        }
    }

    #[verifier::when_used_as_spec(spec_complete)]
    pub fn complete(self) -> (state: BoxState)
        ensures
            state == self.spec_complete(),
    {
        match self {
            BoxState::Commissioning => BoxState::Ready,
            BoxState::Joining => BoxState::Running,
            BoxState::Disconnected => BoxState::Ready,
            state => state.next(),
        }
    }

    #[verifier::when_used_as_spec(spec_progress)]
    pub fn progress(self) -> (place: Option<u8>)
        ensures
            place == self.spec_progress(),
    {
        match self {
            BoxState::New => Some(0),
            BoxState::Commissioning => Some(1),
            BoxState::Ready => Some(2),
            BoxState::Joining => Some(3),
            BoxState::Running => Some(4),
            _ => None,
        }
    }
}

/// The fixed durations that the lifecycle policy works with.
#[derive(Clone, Copy, Debug, PartialEq, Eq, Structural)]
pub struct Timing {
    /// How long a node may stay `New`.
    pub new_grace: Span,
    /// How long the commissioning task may take.
    pub commissioning: Span,
    /// How long the join task may take.
    pub joining: Span,
    /// How long the reset task may take.
    pub disconnected: Span,
    /// How long to wait after the job runner turned a task down.
    pub backoff: Span,
    /// How long to wait when nothing more specific applies.
    pub fallback: Span,
}

impl Timing {
    /// How long after its last update a node in `state` counts as stalled.
    /// A stage without such a limit is never stalled.
    pub open spec fn spec_timeout(self, state: BoxState) -> Option<Span> {
        match state {
            BoxState::New => Some(self.new_grace),
            BoxState::Commissioning => Some(self.commissioning),
            BoxState::Joining => Some(self.joining),
            BoxState::Disconnected => Some(self.disconnected),
            BoxState::Ready | BoxState::Running | BoxState::Failed => None,
        }
    }

    #[verifier::when_used_as_spec(spec_timeout)]
    pub fn timeout(self, state: BoxState) -> (limit: Option<Span>)
        ensures
            limit == self.spec_timeout(state),
    {
        match state {
            BoxState::New => Some(self.new_grace),
            BoxState::Commissioning => Some(self.commissioning),
            BoxState::Joining => Some(self.joining),
            BoxState::Disconnected => Some(self.disconnected),
            _ => None,
        }
    }

    /// The durations used where none are configured: half a minute of grace
    /// for a new node, two hours for each task, a minute of back-off and half
    /// an hour between routine looks.
    pub open spec fn standard_spec() -> Timing {
        Timing {
            new_grace: Span { millis: 30_000 },
            commissioning: Span { millis: 7_200_000 },
            joining: Span { millis: 7_200_000 },
            disconnected: Span { millis: 7_200_000 },
            backoff: Span { millis: 60_000 },
            fallback: Span { millis: 1_800_000 },
        }
    }

    #[verifier::when_used_as_spec(standard_spec)]
    pub fn standard() -> (timing: Timing)
        ensures
            timing == Timing::standard_spec(),
    {
        Timing {
            new_grace: Span { millis: 30_000 },
            commissioning: Span { millis: 7_200_000 },
            joining: Span { millis: 7_200_000 },
            disconnected: Span { millis: 7_200_000 },
            backoff: Span { millis: 60_000 },
            fallback: Span { millis: 1_800_000 },
        }
    }
}

/// `Running` and `Failed` follow themselves.
pub proof fn next_fixed_points()
    ensures
        BoxState::Running.spec_next() == BoxState::Running,
        BoxState::Failed.spec_next() == BoxState::Failed,
{
}

/// Neither the happy path nor a task's completion ever moves a node back
/// along the pipeline, and the completion of a task moves it strictly on.
pub proof fn pipeline_moves_forward(state: BoxState)
    requires
        state.spec_progress() is Some,
    ensures
        state.spec_next().spec_progress() is Some,
        state.spec_next().spec_progress()->0 >= state.spec_progress()->0,
        state.spec_complete().spec_progress() is Some,
        state.spec_complete().spec_progress()->0 >= state.spec_progress()->0,
        state.spec_as_task() is Some && state != BoxState::Running
            ==> state.spec_complete().spec_progress()->0 > state.spec_progress()->0,
{
}

} // verus!
