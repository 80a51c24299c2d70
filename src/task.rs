use vstd::prelude::*;

use crate::policy::{backoff_ms, RestartPolicy};

verus! {

/// Lifecycle of one supervised service.
#[derive(Clone, Copy, Debug, PartialEq, Eq, Structural)]
pub enum TaskState {
    /// Created, not yet run.
    Starting,
    /// The service loop is running.
    Running,
    /// The service loop failed; waiting before the next run.
    BackingOff,
    /// Ended cleanly or by cancellation; never restarted.
    Stopped,
    /// Gave up after the last allowed failure; never restarted.
    Exhausted,
}

/// What the driver of a task observed.
#[derive(Clone, Copy, Debug, PartialEq, Eq, Structural)]
pub enum TaskEvent {
    /// The driver is ready to start the task.
    Start,
    /// The service loop returned without error.
    LoopCompleted,
    /// The service loop returned an error.
    LoopFailed,
    /// The restart delay ran out.
    BackoffElapsed,
    /// The task's cancellation scope fired.
    Cancelled,
}

/// What the driver of a task does next.
#[derive(Clone, Copy, Debug, PartialEq, Eq, Structural)]
pub enum TaskAction {
    /// Run the service loop, racing it against cancellation.
    RunLoop,
    /// Wait this many milliseconds, racing the wait against cancellation.
    Sleep(u64),
    /// The task is over.
    Stop,
    /// The event does not belong to the current state: keep waiting on the
    /// operation already under way.
    Wait,
}

/// Whether `failures` failed runs use up the budget of `policy`.
pub open spec fn budget_spent(policy: RestartPolicy, failures: usize) -> bool {
    match policy.max_attempts {
        Some(max) => failures >= max,
        None => false,
    }
}

/// One failure more, saturating at the largest count.
pub open spec fn one_more(failures: usize) -> usize {
    if failures < usize::MAX {
        (failures + 1) as usize
    } else {
        failures
    }
}

/// The transition of a task in `state`, with `failures` failed runs so far,
/// on `event`: the new state, the new failure count and the action.
pub open spec fn next_status(
    policy: RestartPolicy,
    state: TaskState,
    failures: usize,
    event: TaskEvent,
) -> (TaskState, usize, TaskAction) {
    match state {
        TaskState::Stopped | TaskState::Exhausted => (state, failures, TaskAction::Stop),
        _ => match event {
            TaskEvent::Cancelled => (TaskState::Stopped, failures, TaskAction::Stop),
            TaskEvent::Start => if state == TaskState::Starting {
                (TaskState::Running, failures, TaskAction::RunLoop)
            } else {
                (state, failures, TaskAction::Wait)
            },
            TaskEvent::LoopCompleted => if state == TaskState::Running {
                (TaskState::Stopped, failures, TaskAction::Stop)
            } else {
                (state, failures, TaskAction::Wait)
            },
            TaskEvent::LoopFailed => if state == TaskState::Running {
                let n = one_more(failures);
                if budget_spent(policy, n) {
                    (TaskState::Exhausted, n, TaskAction::Stop)
                } else {
                    (
                        TaskState::BackingOff,
                        n,
                        TaskAction::Sleep(backoff_ms(policy.base_delay_ms as nat, n as nat) as u64),
                    )
                }
            } else {
                (state, failures, TaskAction::Wait)
            },
            TaskEvent::BackoffElapsed => if state == TaskState::BackingOff {
                (TaskState::Running, failures, TaskAction::RunLoop)
            } else {
                (state, failures, TaskAction::Wait)
            },
        },
    }
}

/// One service under a restart policy: its name, the policy, the factory
/// that makes each run of its loop, and where it stands in its lifecycle.
pub struct SupervisedTask<F> {
    pub name: &'static str,
    pub policy: RestartPolicy,
    pub factory: F,
    pub state: TaskState,
    /// Failed runs so far.
    pub failures: usize,
}

impl<F> SupervisedTask<F> {
    /// A task that has not run yet.
    pub fn new(name: &'static str, policy: RestartPolicy, factory: F) -> (r: Self)
        ensures
            r.name == name,
            r.policy == policy,
            r.factory == factory,
            r.state == TaskState::Starting,
            r.failures == 0,
    {
        SupervisedTask { name, policy, factory, state: TaskState::Starting, failures: 0 }
    }

    /// Takes in what the driver observed and says what it does next.
    pub fn step(&mut self, event: TaskEvent) -> (r: TaskAction)
        ensures
            (final(self).state, final(self).failures, r) == next_status(
                old(self).policy,
                old(self).state,
                old(self).failures,
                event,
            ),
            final(self).name == old(self).name,
            final(self).policy == old(self).policy,
            final(self).factory == old(self).factory,
    {
        match self.state {
            TaskState::Stopped | TaskState::Exhausted => TaskAction::Stop,
            _ => match event {
                TaskEvent::Cancelled => {
                    self.state = TaskState::Stopped;
                    TaskAction::Stop
                },
                TaskEvent::Start => {
                    if self.state == TaskState::Starting {
                        self.state = TaskState::Running;
                        TaskAction::RunLoop
                    } else {
                        TaskAction::Wait
                    }
                },
                TaskEvent::LoopCompleted => {
                    if self.state == TaskState::Running {
                        self.state = TaskState::Stopped;
                        TaskAction::Stop
                    } else {
                        TaskAction::Wait
                    }
                },
                TaskEvent::LoopFailed => {
                    if self.state == TaskState::Running {
                        self.failures = self.failures.saturating_add(1);
                        let spent = match self.policy.max_attempts {
                            Some(max) => self.failures >= max,
                            None => false,
                        };
                        if spent {
                            self.state = TaskState::Exhausted;
                            TaskAction::Stop
                        } else {
                            self.state = TaskState::BackingOff;
                            TaskAction::Sleep(self.policy.delay_for_attempt(self.failures))
                        }
                    } else {
                        TaskAction::Wait
                    }
                },
                TaskEvent::BackoffElapsed => {
                    if self.state == TaskState::BackingOff {
                        self.state = TaskState::Running;
                        TaskAction::RunLoop
                    } else {
                        TaskAction::Wait
                    }
                },
            },
        }
    }

    /// Whether the task is over for good.
    pub fn is_finished(&self) -> (r: bool)
        ensures
            r == (self.state == TaskState::Stopped || self.state == TaskState::Exhausted),
    {
        self.state == TaskState::Stopped || self.state == TaskState::Exhausted
    }
}

/// The state and failure count of a task after `j` failed runs, counted
/// from the start of its first run, each failure followed by its restart
/// delay running out (where the task backs off at all).
pub open spec fn after_failures(policy: RestartPolicy, j: nat) -> (TaskState, usize)
    decreases j,
{
    if j == 0 {
        (TaskState::Running, 0usize)
    } else {
        let prev = after_failures(policy, (j - 1) as nat);
        let failed = next_status(policy, prev.0, prev.1, TaskEvent::LoopFailed);
        if failed.0 == TaskState::BackingOff {
            let resumed = next_status(policy, failed.0, failed.1, TaskEvent::BackoffElapsed);
            (resumed.0, resumed.1)
        } else {
            (failed.0, failed.1)
        }
    }
}

/// A task whose budget is `k` failed runs starts running on its first
/// event; after each of its first `k - 1` failures it backs off for the
/// policy's delay of that attempt and runs again; the `k`-th failure leaves
/// it exhausted, and from there no event makes it run again.
pub proof fn lemma_exhausted_after_budget(policy: RestartPolicy, k: usize)
    requires
        policy.max_attempts == Some(k),
        k >= 1,
    ensures
        next_status(policy, TaskState::Starting, 0, TaskEvent::Start) == (
            TaskState::Running,
            0usize,
            TaskAction::RunLoop,
        ),
        forall|j: nat| j < k ==> #[trigger] after_failures(policy, j) == (TaskState::Running, j as usize),
        forall|j: usize|
            1 <= j < k ==> #[trigger] next_status(policy, TaskState::Running, (j - 1) as usize, TaskEvent::LoopFailed)
                == (
                TaskState::BackingOff,
                j,
                TaskAction::Sleep(backoff_ms(policy.base_delay_ms as nat, j as nat) as u64),
            ),
        after_failures(policy, k as nat) == (TaskState::Exhausted, k),
        forall|e: TaskEvent| #[trigger]
            next_status(policy, TaskState::Exhausted, k, e) == (
                TaskState::Exhausted,
                k,
                TaskAction::Stop,
            ),
{
    assert forall|j: nat| j < k implies #[trigger] after_failures(policy, j) == (
        TaskState::Running,
        j as usize,
    ) by {
        lemma_running_before_budget(policy, k, j);
    }
    lemma_running_before_budget(policy, k, (k - 1) as nat);
}

/// Before the budget is spent, each failure is followed by a new run.
proof fn lemma_running_before_budget(policy: RestartPolicy, k: usize, j: nat)
    requires
        policy.max_attempts == Some(k),
        j < k,
    ensures
        after_failures(policy, j) == (TaskState::Running, j as usize),
    decreases j,
{
    if j > 0 {
        lemma_running_before_budget(policy, k, (j - 1) as nat);
    }
}

/// Cancelling a task while it backs off stops it at once: the rest of the
/// delay is not waited out and no further run follows.
pub proof fn lemma_cancel_during_backoff(policy: RestartPolicy, failures: usize, later: TaskEvent)
    ensures
        next_status(policy, TaskState::BackingOff, failures, TaskEvent::Cancelled) == (
            TaskState::Stopped,
            failures,
            TaskAction::Stop,
        ),
        next_status(policy, TaskState::Stopped, failures, later) == (
            TaskState::Stopped,
            failures,
            TaskAction::Stop,
        ),
{
}

} // verus!
