use vstd::prelude::*;

use std::sync::Arc;

use crate::interface::NetworkInterface;
use crate::policy::RestartPolicy;
use crate::task::{SupervisedTask, TaskState};

verus! {

/// Marks a stream (TCP) service at registration.
pub struct Tcp;

/// Marks a datagram (UDP) service at registration.
pub struct Udp;

/// How long, in milliseconds, running services may take to stop after
/// shutdown was requested before they are aborted.
pub const GRACE_PERIOD_MS: u64 = 5000;

/// Where a supervisor's run stands.
#[derive(Clone, Copy, Debug, PartialEq, Eq, Structural)]
pub enum RunPhase {
    /// Not started.
    Idle,
    /// Services run; waiting for the interrupt signal.
    Serving,
    /// Cancellation was requested; waiting for the services to stop.
    Draining,
    /// The run is over.
    Finished,
}

/// What the driver of a supervisor's run observed.
#[derive(Clone, Copy, Debug, PartialEq, Eq, Structural)]
pub enum RunEvent {
    /// The driver is ready to start.
    Start,
    /// The interrupt signal arrived.
    Interrupted,
    /// Waiting for the interrupt signal failed.
    SignalFailed,
    /// Every service has stopped.
    AllFinished,
    /// The grace period ran out first.
    GraceElapsed,
}

/// What the driver of a supervisor's run does next.
#[derive(Clone, Copy, Debug, PartialEq, Eq, Structural)]
pub enum RunAction {
    /// Launch every service under a child of the root cancellation scope,
    /// then wait for the interrupt signal.
    SpawnAndAwaitSignal,
    /// Cancel the root scope and wait this many milliseconds at most for
    /// the services to stop.
    CancelAndDrain(u64),
    /// Abort the services still running, then return.
    AbortRemaining,
    /// Return normally.
    Return,
    /// Return the failure to wait for the signal.
    Fail,
    /// The event does not belong to the current phase: keep waiting.
    Wait,
}

/// The transition of a run in `phase`, of a supervisor with `services`
/// registered services, on `event`.
pub open spec fn next_run_status(phase: RunPhase, services: nat, event: RunEvent) -> (
    RunPhase,
    RunAction,
) {
    match phase {
        RunPhase::Idle => match event {
            RunEvent::Start => if services == 0 {
                (RunPhase::Finished, RunAction::Return)
            } else {
                (RunPhase::Serving, RunAction::SpawnAndAwaitSignal)
            },
            _ => (phase, RunAction::Wait),
        },
        RunPhase::Serving => match event {
            RunEvent::Interrupted => (RunPhase::Draining, RunAction::CancelAndDrain(GRACE_PERIOD_MS)),
            RunEvent::SignalFailed => (RunPhase::Finished, RunAction::Fail),
            _ => (phase, RunAction::Wait),
        },
        RunPhase::Draining => match event {
            RunEvent::AllFinished => (RunPhase::Finished, RunAction::Return),
            RunEvent::GraceElapsed => (RunPhase::Finished, RunAction::AbortRemaining),
            _ => (phase, RunAction::Wait),
        },
        RunPhase::Finished => (phase, RunAction::Return),
    }
}

/// Takes in what the driver of a run observed and says what it does next.
pub fn run_step(phase: RunPhase, services: usize, event: RunEvent) -> (r: (RunPhase, RunAction))
    ensures
        r == next_run_status(phase, services as nat, event),
{
    match phase {
        RunPhase::Idle => match event {
            RunEvent::Start => if services == 0 {
                (RunPhase::Finished, RunAction::Return)
            } else {
                (RunPhase::Serving, RunAction::SpawnAndAwaitSignal)
            },
            _ => (phase, RunAction::Wait),
        },
        RunPhase::Serving => match event {
            RunEvent::Interrupted => (RunPhase::Draining, RunAction::CancelAndDrain(GRACE_PERIOD_MS)),
            RunEvent::SignalFailed => (RunPhase::Finished, RunAction::Fail),
            _ => (phase, RunAction::Wait),
        },
        RunPhase::Draining => match event {
            RunEvent::AllFinished => (RunPhase::Finished, RunAction::Return),
            RunEvent::GraceElapsed => (RunPhase::Finished, RunAction::AbortRemaining),
            _ => (phase, RunAction::Wait),
        },
        RunPhase::Finished => (phase, RunAction::Return),
    }
}

/// A supervisor with no service returns as soon as it starts, without
/// waiting for the interrupt signal, and stays finished.
pub proof fn lemma_empty_supervisor_returns_at_once(later: RunEvent)
    ensures
        next_run_status(RunPhase::Idle, 0, RunEvent::Start) == (RunPhase::Finished, RunAction::Return),
        next_run_status(RunPhase::Finished, 0, later) == (RunPhase::Finished, RunAction::Return),
{
}

/// A set of services sharing one interface and one default restart policy,
/// in the order they were added.
pub struct Supervisor<F> {
    network_interface: Arc<NetworkInterface>,
    restart_policy: RestartPolicy,
    tasks: Vec<SupervisedTask<F>>,
}

impl<F> Supervisor<F> {
    /// The shared interface.
    pub closed spec fn spec_interface(&self) -> NetworkInterface {
        *self.network_interface
    }

    /// The default restart policy.
    pub closed spec fn spec_policy(&self) -> RestartPolicy {
        self.restart_policy
    }

    /// The services, in the order they were added.
    pub closed spec fn spec_tasks(&self) -> Seq<SupervisedTask<F>> {
        self.tasks@
    }

    /// A supervisor of no service on `network_interface`, with the default
    /// restart policy.
    pub fn new(network_interface: NetworkInterface) -> (r: Self)
        ensures
            r.spec_interface() == network_interface,
            r.spec_policy().max_attempts == Some(5usize),
            r.spec_policy().base_delay_ms == 1000,
            r.spec_tasks().len() == 0,
    {
        Supervisor {
            network_interface: Arc::new(network_interface),
            restart_policy: RestartPolicy::default(),
            tasks: Vec::new(),
        }
    }

    /// A supervisor of no service on `network_interface`, with
    /// `restart_policy` as its default.
    pub fn with_policy(network_interface: NetworkInterface, restart_policy: RestartPolicy) -> (r:
        Self)
        ensures
            r.spec_interface() == network_interface,
            r.spec_policy() == restart_policy,
            r.spec_tasks().len() == 0,
    {
        Supervisor { network_interface: Arc::new(network_interface), restart_policy, tasks: Vec::new() }
    }

    /// Adds a service, named `name`, whose runs `factory` makes; it is
    /// supervised under the default restart policy, after every service
    /// added before it.
    pub fn add(&mut self, name: &'static str, factory: F)
        ensures
            final(self).spec_interface() == old(self).spec_interface(),
            final(self).spec_policy() == old(self).spec_policy(),
            final(self).spec_tasks() == old(self).spec_tasks().push(
                SupervisedTask {
                    name,
                    policy: old(self).spec_policy(),
                    factory,
                    state: TaskState::Starting,
                    failures: 0,
                },
            ),
    {
        let task = SupervisedTask::new(name, self.restart_policy, factory);
        self.tasks.push(task);
    }

    /// The shared interface.
    pub fn network_interface(&self) -> (r: &Arc<NetworkInterface>)
        ensures
            **r == self.spec_interface(),
    {
        &self.network_interface
    }

    /// The default restart policy.
    pub fn restart_policy(&self) -> (r: RestartPolicy)
        ensures
            r == self.spec_policy(),
    {
        self.restart_policy
    }

    /// The number of services.
    pub fn len(&self) -> (r: usize)
        ensures
            r == self.spec_tasks().len(),
    {
        self.tasks.len()
    }

    /// Whether no service was added.
    pub fn is_empty(&self) -> (r: bool)
        ensures
            r == (self.spec_tasks().len() == 0),
    {
        self.tasks.len() == 0
    }

    /// The first step of a run: return at once where no service was added,
    /// else launch them all and wait for the interrupt signal.
    pub fn begin_run(&self) -> (r: (RunPhase, RunAction))
        ensures
            r == next_run_status(RunPhase::Idle, self.spec_tasks().len(), RunEvent::Start),
    {
        run_step(RunPhase::Idle, self.tasks.len(), RunEvent::Start)
    }

    /// Hands over the services, in the order they were added.
    pub fn into_tasks(self) -> (r: Vec<SupervisedTask<F>>)
        ensures
            r@ == self.spec_tasks(),
    {
        self.tasks
    }
}

} // verus!
