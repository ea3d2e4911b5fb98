//! The life of the maintenance task: it counts ticks, cleans the table on
//! every tenth, and stops for good when it is cancelled.

use vstd::prelude::*;

verus! {

/// The time between two ticks of the maintenance task, in milliseconds.
pub const BACKGROUND_TASK_PERIOD_MS: u64 = 1000;

/// The table is cleaned once in this many ticks.
pub const TICKS_PER_CLEANUP: u8 = 10;

/// What the maintenance task is doing.
#[derive(Clone, Copy, Debug, PartialEq, Eq, Structural)]
pub enum TaskState {
    /// The task waits for ticks; `ticks` have passed since the last
    /// cleaning, counted modulo `TICKS_PER_CLEANUP`.
    Running { ticks: u8 },
    /// The task has ended and does not start again.
    Stopped,
}

/// What the maintenance task is woken by.
#[derive(Clone, Copy, Debug, PartialEq, Eq, Structural)]
pub enum TaskEvent {
    /// The period has passed.
    Tick,
    /// The cancellation signal has fired.
    Cancelled,
}

/// What the maintenance task does next.
#[derive(Clone, Copy, Debug, PartialEq, Eq, Structural)]
pub enum TaskAction {
    /// Nothing but wait for the next event.
    Wait,
    /// Clean the table, then wait for the next event.
    Cleanup,
    /// End the task.
    Stop,
}

impl TaskState {
    /// The tick count of a running task is below `TICKS_PER_CLEANUP`.
    pub open spec fn wf(self) -> bool {
        self matches TaskState::Running { ticks } ==> ticks < TICKS_PER_CLEANUP
    }

    /// The state and the action that follow `event`.
    ///
    /// A stopped task stays stopped. A running task stops when it is
    /// cancelled. On a tick it counts, and cleans when the count comes back
    /// to zero.
    pub open spec fn spec_step(self, event: TaskEvent) -> (TaskState, TaskAction) {
        match (self, event) {
            (TaskState::Stopped, _) => (TaskState::Stopped, TaskAction::Stop),
            (TaskState::Running { .. }, TaskEvent::Cancelled) => (
                TaskState::Stopped,
                TaskAction::Stop,
            ),
            (TaskState::Running { ticks }, TaskEvent::Tick) => {
                let counted = ((ticks + 1) % (TICKS_PER_CLEANUP as int)) as u8;
                (
                    TaskState::Running { ticks: counted },
                    if counted == 0 {
                        TaskAction::Cleanup
                    } else {
                        TaskAction::Wait
                    },
                )
            },
        }
    }

    /// The state of a task that has just been started.
    pub fn start() -> (state: TaskState)
        ensures
            state == (TaskState::Running { ticks: 0 }),
            state.wf(),
    {
        TaskState::Running { ticks: 0 }
    }

    /// Whether the task has ended.
    pub fn is_stopped(&self) -> (stopped: bool)
        ensures
            stopped == (*self is Stopped),
    {
        match self {
            TaskState::Stopped => true,
            TaskState::Running { .. } => false,
        }
    }

    /// Takes `event` and gives the state that follows and what to do.
    #[verifier::when_used_as_spec(spec_step)]
    pub fn step(self, event: TaskEvent) -> (next: (TaskState, TaskAction))
        ensures
            next == self.spec_step(event),
            next.0.wf(),
            self is Stopped ==> next.0 is Stopped,
            (next.1 is Stop) == (next.0 is Stopped),
    {
        match self {
            TaskState::Stopped => (TaskState::Stopped, TaskAction::Stop),
            TaskState::Running { ticks } => match event {
                TaskEvent::Cancelled => (TaskState::Stopped, TaskAction::Stop),
                TaskEvent::Tick => {
                    let counted: u8 = ((ticks as u16 + 1) % (TICKS_PER_CLEANUP as u16)) as u8;
                    if counted == 0 {
                        (TaskState::Running { ticks: counted }, TaskAction::Cleanup)
                    } else {
                        (TaskState::Running { ticks: counted }, TaskAction::Wait)
                    }
                },
            },
        }
    }

    /// The state after `count` ticks in a row.
    pub open spec fn after_ticks(self, count: nat) -> TaskState
        decreases count,
    {
        if count == 0 {
            self
        } else {
            self.after_ticks((count - 1) as nat).step(TaskEvent::Tick).0
        }
    }

    /// A task that runs with `ticks` counted has, after `count` more ticks,
    /// counted `(ticks + count) % TICKS_PER_CLEANUP`; so the tick that ends
    /// such a row cleans the table exactly when that number is zero: once in
    /// every `TICKS_PER_CLEANUP` ticks.
    pub proof fn lemma_cleanup_every_tenth_tick(ticks: u8, count: nat)
        requires
            ticks < TICKS_PER_CLEANUP,
        ensures
            (TaskState::Running { ticks }).after_ticks(count) == (TaskState::Running {
                ticks: ((ticks + count) % (TICKS_PER_CLEANUP as int)) as u8,
            }),
            count > 0 ==> ((TaskState::Running { ticks }).after_ticks((count - 1) as nat).step(
                TaskEvent::Tick,
            ).1 is Cleanup) == ((ticks + count) % (TICKS_PER_CLEANUP as int) == 0),
        decreases count,
    {
        if count > 0 {
            Self::lemma_cleanup_every_tenth_tick(ticks, (count - 1) as nat);
        }
    }
}

} // verus!
