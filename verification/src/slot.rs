//! The controller of one execution slot of a node.
//!
//! A slot runs one unit at a time. Its controller is a state machine: it is
//! told what happened (an event) and answers with what to do next (an
//! action). Whoever drives it performs the action, which may take time, and
//! comes back with the event that the action ended in. The controller itself
//! never waits and never fails: every failure of a pull, a start or a unit is
//! recorded, backed off from, and left behind when the task changes.
//!
//! One round of the machine:
//!
//! * `Observe`: look at the shutdown flag and at the task that the feed
//!   holds. Shutdown comes first: the slot ends. A task with a new name is
//!   pulled; the same name as last time means there is nothing to do; no
//!   task means idling.
//! * `Pull`, up to three attempts five seconds apart; then `Start`, up to
//!   three attempts, each failure followed by a wait that a task change cuts
//!   short.
//! * `Poll`: while the unit runs, the shutdown flag and the feed are looked
//!   at between short bounded waits. Shutdown comes first here too: the unit
//!   is stopped within the grace period and removed, and the slot ends. A
//!   feed that names another task than the one the unit runs, or none,
//!   preempts the unit: it is stopped within the grace period and removed,
//!   and that is no failure.
//!
//! The shutdown flag is looked at in these two places only: a wait between
//! attempts or after a failure is not cut short by it.

use crate::task::{opt_config_view, TaskConfig, TaskConfigView};
use crate::text::{decimal_digits, opt_text, pairs_text};
use vstd::prelude::*;

verus! {

/// How often a pull is tried before the slot gives up on it.
pub const PULL_ATTEMPTS: u32 = 3;

/// How often a start is tried before the slot gives up on it.
pub const START_ATTEMPTS: u32 = 3;

/// Milliseconds between two attempts of a pull or of a start.
pub const RETRY_DELAY_MS: u64 = 5000;

/// Milliseconds waited after the last attempt of a pull has failed.
pub const PULL_FAILURE_WAIT_MS: u64 = 30000;

/// Milliseconds waited when the feed holds no task.
pub const IDLE_WAIT_MS: u64 = 5000;

/// Milliseconds between two rounds, so that an idle slot does not spin.
pub const PAUSE_MS: u64 = 100;

/// Milliseconds that one poll of a running unit may take.
pub const POLL_MS: u64 = 100;

/// Seconds of back-off for each consecutive failure.
pub const BACKOFF_STEP_SECS: u64 = 10;

/// The longest back-off, in seconds.
pub const BACKOFF_CAP_SECS: u64 = 60;

/// What went wrong in a slot, as recorded for the node's reported status.
#[derive(Debug, PartialEq, Eq)]
pub enum SlotFault {
    /// The image could not be pulled; holds the last attempt's message.
    PullFailed(String),
    /// No attempt to start the unit succeeded.
    StartFailed,
    /// The unit ended with a code other than zero, or waiting for it failed
    /// (code -1).
    ExitCode(i64),
}

/// The mathematical content of a [`SlotFault`].
pub enum SlotFaultView {
    PullFailed(Seq<char>),
    StartFailed,
    ExitCode(i64),
}

impl View for SlotFault {
    type V = SlotFaultView;

    open spec fn view(&self) -> SlotFaultView {
        match self {
            SlotFault::PullFailed(m) => SlotFaultView::PullFailed(m@),
            SlotFault::StartFailed => SlotFaultView::StartFailed,
            SlotFault::ExitCode(c) => SlotFaultView::ExitCode(*c),
        }
    }
}

/// The content of an optional fault.
pub open spec fn opt_fault_view(f: Option<SlotFault>) -> Option<SlotFaultView> {
    match f {
        Some(x) => Some(x@),
        None => None,
    }
}

/// What the slot does once a wait is over.
#[derive(Debug, PartialEq, Eq)]
pub enum Wake {
    /// Start the next round.
    Observe,
    /// Pause briefly, then start the next round.
    Pause,
    /// Try the pull again; `attempt` counts the attempts made.
    PullAgain { task: TaskConfig, attempt: u32 },
    /// Try the start again, unless the wait was cut short.
    StartAgain { task: TaskConfig, attempt: u32 },
}

/// The mathematical content of a [`Wake`].
pub enum WakeView {
    Observe,
    Pause,
    PullAgain { task: TaskConfigView, attempt: u32 },
    StartAgain { task: TaskConfigView, attempt: u32 },
}

impl View for Wake {
    type V = WakeView;

    open spec fn view(&self) -> WakeView {
        match self {
            Wake::Observe => WakeView::Observe,
            Wake::Pause => WakeView::Pause,
            Wake::PullAgain { task, attempt } => WakeView::PullAgain {
                task: task@,
                attempt: *attempt,
            },
            Wake::StartAgain { task, attempt } => WakeView::StartAgain {
                task: task@,
                attempt: *attempt,
            },
        }
    }
}

/// Where the slot stands: which event it is waiting for.
#[derive(Debug, PartialEq, Eq)]
pub enum Phase {
    /// Waiting to be shown the shutdown flag and the feed's task.
    Observing,
    /// Waiting for a pull to end; `attempt` counts from one.
    Pulling { task: TaskConfig, attempt: u32 },
    /// Waiting for a start to end; `attempt` counts from one.
    Starting { task: TaskConfig, attempt: u32 },
    /// Waiting for a poll of the running unit.
    Running { unit: String },
    /// Waiting for the unit to have been stopped.
    Stopping { unit: String, shutdown: bool },
    /// Waiting for the unit to have been removed.
    Removing { unit: String, shutdown: bool },
    /// Waiting for a wait to end.
    Sleeping(Wake),
    /// The slot has ended.
    Exited,
}

/// The mathematical content of a [`Phase`].
pub enum PhaseView {
    Observing,
    Pulling { task: TaskConfigView, attempt: u32 },
    Starting { task: TaskConfigView, attempt: u32 },
    Running { unit: Seq<char> },
    Stopping { unit: Seq<char>, shutdown: bool },
    Removing { unit: Seq<char>, shutdown: bool },
    Sleeping(WakeView),
    Exited,
}

impl View for Phase {
    type V = PhaseView;

    open spec fn view(&self) -> PhaseView {
        match self {
            Phase::Observing => PhaseView::Observing,
            Phase::Pulling { task, attempt } => PhaseView::Pulling { task: task@, attempt: *attempt },
            Phase::Starting { task, attempt } => PhaseView::Starting {
                task: task@,
                attempt: *attempt,
            },
            Phase::Running { unit } => PhaseView::Running { unit: unit@ },
            Phase::Stopping { unit, shutdown } => PhaseView::Stopping {
                unit: unit@,
                shutdown: *shutdown,
            },
            Phase::Removing { unit, shutdown } => PhaseView::Removing {
                unit: unit@,
                shutdown: *shutdown,
            },
            Phase::Sleeping(w) => PhaseView::Sleeping(w@),
            Phase::Exited => PhaseView::Exited,
        }
    }
}

/// What a poll found of the running unit.
#[derive(Debug, Clone, Copy, PartialEq, Eq, Structural)]
pub enum UnitPoll {
    /// The unit had not ended when the poll's time was up.
    StillRunning,
    /// The unit ended with this code.
    Exited(i64),
    /// Waiting for the unit failed.
    WaitFailed,
}

/// What happened: the end of the action that the controller asked for last.
#[derive(Debug, PartialEq, Eq)]
pub enum SlotEvent {
    /// The shutdown flag and the feed's task were looked at.
    Observed { shutdown: bool, task: Option<TaskConfig> },
    /// A pull ended: in success, or with a message.
    PullFinished(Result<(), String>),
    /// A start ended: with the new unit's id, or with a message.
    StartFinished(Result<String, String>),
    /// A poll ended. `shutdown` is the shutdown flag and `feed_name` the
    /// name of the task that the feed held when the poll began.
    Polled { shutdown: bool, feed_name: Option<String>, unit: UnitPoll },
    /// The unit was stopped, or could not be: either way it is left behind.
    Stopped,
    /// The unit was removed, or could not be.
    Removed,
    /// A wait ended: in full, or cut short by a change of the feed.
    SleepFinished { interrupted: bool },
}

/// The mathematical content of a [`SlotEvent`].
pub enum SlotEventView {
    Observed { shutdown: bool, task: Option<TaskConfigView> },
    PullFinished(Result<(), Seq<char>>),
    StartFinished(Result<Seq<char>, Seq<char>>),
    Polled { shutdown: bool, feed_name: Option<Seq<char>>, unit: UnitPoll },
    Stopped,
    Removed,
    SleepFinished { interrupted: bool },
}

impl View for SlotEvent {
    type V = SlotEventView;

    open spec fn view(&self) -> SlotEventView {
        match self {
            SlotEvent::Observed { shutdown, task } => SlotEventView::Observed {
                shutdown: *shutdown,
                task: opt_config_view(*task),
            },
            SlotEvent::PullFinished(r) => SlotEventView::PullFinished(
                match r {
                    Ok(_) => Ok(()),
                    Err(m) => Err(m@),
                },
            ),
            SlotEvent::StartFinished(r) => SlotEventView::StartFinished(
                match r {
                    Ok(u) => Ok(u@),
                    Err(m) => Err(m@),
                },
            ),
            SlotEvent::Polled { shutdown, feed_name, unit } => SlotEventView::Polled {
                shutdown: *shutdown,
                feed_name: opt_text(*feed_name),
                unit: *unit,
            },
            SlotEvent::Stopped => SlotEventView::Stopped,
            SlotEvent::Removed => SlotEventView::Removed,
            SlotEvent::SleepFinished { interrupted } => SlotEventView::SleepFinished {
                interrupted: *interrupted,
            },
        }
    }
}

/// What a unit is started with.
#[derive(Debug, PartialEq, Eq)]
pub struct StartRequest {
    pub task_name: String,
    pub image: String,
    pub node_id: String,
    pub slot: u32,
    /// The unit's environment, as names and values.
    pub env: Vec<(String, String)>,
    /// The unit's memory limit in megabytes.
    pub memory_mb: u64,
}

/// The mathematical content of a [`StartRequest`].
pub struct StartRequestView {
    pub task_name: Seq<char>,
    pub image: Seq<char>,
    pub node_id: Seq<char>,
    pub slot: u32,
    pub env: Seq<(Seq<char>, Seq<char>)>,
    pub memory_mb: u64,
}

impl View for StartRequest {
    type V = StartRequestView;

    open spec fn view(&self) -> StartRequestView {
        StartRequestView {
            task_name: self.task_name@,
            image: self.image@,
            node_id: self.node_id@,
            slot: self.slot,
            env: pairs_text(self.env@),
            memory_mb: self.memory_mb,
        }
    }
}

/// What to do next.
#[derive(Debug, PartialEq, Eq)]
pub enum SlotAction {
    /// Look at the shutdown flag and at the feed's task.
    Observe,
    /// Pull the image.
    Pull { image: String },
    /// Start a unit.
    Start(StartRequest),
    /// Look at the shutdown flag and at the feed, then wait for the unit to
    /// end, for at most `millis` milliseconds.
    Poll { unit: String, millis: u64 },
    /// Stop the unit, giving it `grace_secs` seconds to end by itself.
    Stop { unit: String, grace_secs: u64 },
    /// Remove the unit.
    Remove { unit: String },
    /// Wait for `millis` milliseconds; where `interruptible`, a change of
    /// the feed ends the wait early.
    Sleep { millis: u64, interruptible: bool },
    /// End the slot.
    Exit,
}

/// The mathematical content of a [`SlotAction`].
pub enum SlotActionView {
    Observe,
    Pull { image: Seq<char> },
    Start(StartRequestView),
    Poll { unit: Seq<char>, millis: u64 },
    Stop { unit: Seq<char>, grace_secs: u64 },
    Remove { unit: Seq<char> },
    Sleep { millis: u64, interruptible: bool },
    Exit,
}

impl View for SlotAction {
    type V = SlotActionView;

    open spec fn view(&self) -> SlotActionView {
        match self {
            SlotAction::Observe => SlotActionView::Observe,
            SlotAction::Pull { image } => SlotActionView::Pull { image: image@ },
            SlotAction::Start(req) => SlotActionView::Start(req@),
            SlotAction::Poll { unit, millis } => SlotActionView::Poll { unit: unit@, millis: *millis },
            SlotAction::Stop { unit, grace_secs } => SlotActionView::Stop {
                unit: unit@,
                grace_secs: *grace_secs,
            },
            SlotAction::Remove { unit } => SlotActionView::Remove { unit: unit@ },
            SlotAction::Sleep { millis, interruptible } => SlotActionView::Sleep {
                millis: *millis,
                interruptible: *interruptible,
            },
            SlotAction::Exit => SlotActionView::Exit,
        }
    }
}

/// The controller was handed an event that its phase does not wait for.
#[derive(Debug, Clone, Copy, PartialEq, Eq, Structural)]
pub enum SlotMisuse {
    UnexpectedEvent,
}

/// The mathematical content of a slot controller.
pub struct SlotView {
    /// The slot's index on its node.
    pub slot: u32,
    pub node_id: Seq<char>,
    /// Seconds a unit is given to stop by itself.
    pub stop_timeout: u64,
    /// Memory limit of a unit in megabytes.
    pub container_memory: u64,
    /// The name of the task that the slot handled last.
    pub last_task_name: Option<Seq<char>>,
    pub consecutive_failures: u32,
    /// The unit that is active in the slot.
    pub current_unit: Option<Seq<char>>,
    /// The slot's entry in the node's error map.
    pub fault: Option<SlotFaultView>,
    pub phase: PhaseView,
}

/// A failure counter after one more failure. It stops at the largest number
/// it can hold.
pub open spec fn one_more(failures: u32) -> u32 {
    if failures < u32::MAX {
        (failures + 1) as u32
    } else {
        failures
    }
}

/// Seconds of back-off after `failures` consecutive failures: ten for each,
/// sixty at most.
pub open spec fn backoff_secs(failures: u32) -> int {
    if BACKOFF_STEP_SECS * failures < BACKOFF_CAP_SECS {
        BACKOFF_STEP_SECS * failures
    } else {
        BACKOFF_CAP_SECS as int
    }
}

/// A variable of the unit's environment that is set only where the task
/// supplies its value.
pub open spec fn optional_var(name: Seq<char>, value: Option<Seq<char>>) -> Seq<
    (Seq<char>, Seq<char>),
> {
    match value {
        Some(v) => seq![(name, v)],
        None => Seq::empty(),
    }
}

/// The environment of a unit: the task's name, the node's id and the slot's
/// index always; the task's overrides where it has them.
pub open spec fn unit_env(task: TaskConfigView, node_id: Seq<char>, slot: u32) -> Seq<
    (Seq<char>, Seq<char>),
> {
    seq![
        ("TASK_NAME"@, task.task_name),
        ("NODE_ID"@, node_id),
        ("INSTANCE_ID"@, decimal_digits(slot as nat)),
    ] + optional_var("INPUT_REDIS_URL"@, task.input_redis) + optional_var(
        "OUTPUT_REDIS_URL"@,
        task.output_redis,
    ) + optional_var("INPUT_QUEUE"@, task.input_queue) + optional_var(
        "OUTPUT_QUEUE"@,
        task.output_queue,
    )
}

impl SlotView {
    /// The slot in another phase.
    pub open spec fn at(self, phase: PhaseView) -> SlotView {
        SlotView { phase, ..self }
    }

    /// The slot with its failures forgotten.
    pub open spec fn cleared(self) -> SlotView {
        SlotView { consecutive_failures: 0, fault: None, ..self }
    }

    /// The slot after its unit was preempted: no unit, no failure.
    pub open spec fn preempted(self) -> SlotView {
        SlotView { current_unit: None, ..self.cleared() }
    }

    /// The slot with one more failure recorded.
    pub open spec fn failed(self, fault: SlotFaultView) -> SlotView {
        SlotView {
            consecutive_failures: one_more(self.consecutive_failures),
            fault: Some(fault),
            ..self
        }
    }

    /// The request to start a unit for `task` in this slot.
    pub open spec fn start_request(self, task: TaskConfigView) -> StartRequestView {
        StartRequestView {
            task_name: task.task_name,
            image: task.image,
            node_id: self.node_id,
            slot: self.slot,
            env: unit_env(task, self.node_id, self.slot),
            memory_mb: self.container_memory,
        }
    }

    /// The brief pause that ends a round.
    pub open spec fn pause(self) -> (SlotView, SlotActionView) {
        (
            self.at(PhaseView::Sleeping(WakeView::Observe)),
            SlotActionView::Sleep { millis: PAUSE_MS, interruptible: false },
        )
    }

    /// The top of a round. Shutdown comes first; then a task with a new name
    /// is taken up; the same name means nothing to do; no task means idling.
    ///
    /// A slot that meets its invariant holds no unit when it observes, so
    /// shutdown ends it at once. The stop of a unit is there for a state
    /// that does not meet the invariant.
    pub open spec fn observe(self, shutdown: bool, task: Option<TaskConfigView>) -> (
        SlotView,
        SlotActionView,
    ) {
        if shutdown {
            match self.current_unit {
                Some(unit) => (
                    self.at(PhaseView::Stopping { unit, shutdown: true }),
                    SlotActionView::Stop { unit, grace_secs: self.stop_timeout },
                ),
                None => (self.at(PhaseView::Exited), SlotActionView::Exit),
            }
        } else {
            match task {
                Some(t) => if self.last_task_name != Some(t.task_name) {
                    (
                        SlotView { last_task_name: Some(t.task_name), ..self.cleared() }.at(
                            PhaseView::Pulling { task: t, attempt: 1 },
                        ),
                        SlotActionView::Pull { image: t.image },
                    )
                } else {
                    self.pause()
                },
                None => (
                    (if self.last_task_name is Some {
                        SlotView { last_task_name: None, ..self.cleared() }
                    } else {
                        self
                    }).at(PhaseView::Sleeping(WakeView::Pause)),
                    SlotActionView::Sleep { millis: IDLE_WAIT_MS, interruptible: true },
                ),
            }
        }
    }

    /// After a pull: start the unit, or try again, or give the task up.
    pub open spec fn after_pull(
        self,
        task: TaskConfigView,
        attempt: u32,
        outcome: Result<(), Seq<char>>,
    ) -> (SlotView, SlotActionView) {
        match outcome {
            Ok(_) => (
                self.at(PhaseView::Starting { task, attempt: 1 }),
                SlotActionView::Start(self.start_request(task)),
            ),
            Err(message) => if attempt < PULL_ATTEMPTS {
                (
                    self.at(PhaseView::Sleeping(WakeView::PullAgain { task, attempt })),
                    SlotActionView::Sleep { millis: RETRY_DELAY_MS, interruptible: false },
                )
            } else {
                (
                    self.failed(SlotFaultView::PullFailed(message)).at(
                        PhaseView::Sleeping(WakeView::Observe),
                    ),
                    SlotActionView::Sleep { millis: PULL_FAILURE_WAIT_MS, interruptible: true },
                )
            },
        }
    }

    /// Giving up on starting a unit: a failure, and a back-off that grows
    /// with the failures in a row.
    pub open spec fn give_up_start(self) -> (SlotView, SlotActionView) {
        let s = self.failed(SlotFaultView::StartFailed);
        (
            s.at(PhaseView::Sleeping(WakeView::Pause)),
            SlotActionView::Sleep {
                millis: (backoff_secs(s.consecutive_failures) * 1000) as u64,
                interruptible: true,
            },
        )
    }

    /// After a start: watch the unit, or try again, or give up.
    pub open spec fn after_start(
        self,
        task: TaskConfigView,
        attempt: u32,
        outcome: Result<Seq<char>, Seq<char>>,
    ) -> (SlotView, SlotActionView) {
        match outcome {
            Ok(unit) => (
                SlotView { current_unit: Some(unit), fault: None, ..self }.at(
                    PhaseView::Running { unit },
                ),
                SlotActionView::Poll { unit, millis: POLL_MS },
            ),
            Err(_) => if attempt < START_ATTEMPTS {
                (
                    self.at(PhaseView::Sleeping(WakeView::StartAgain { task, attempt })),
                    SlotActionView::Sleep { millis: RETRY_DELAY_MS, interruptible: true },
                )
            } else {
                self.give_up_start()
            },
        }
    }

    /// The end of a unit by itself: code zero clears the failures, any other
    /// code is one more failure.
    pub open spec fn finish(self, code: i64) -> (SlotView, SlotActionView) {
        let s = SlotView { current_unit: None, ..self };
        if code == 0 {
            s.cleared().pause()
        } else {
            s.failed(SlotFaultView::ExitCode(code)).pause()
        }
    }

    /// What a poll found of the unit, where neither shutdown nor another
    /// task stands against it.
    pub open spec fn unit_polled(self, unit: Seq<char>, poll: UnitPoll) -> (SlotView, SlotActionView) {
        match poll {
            UnitPoll::StillRunning => (self, SlotActionView::Poll { unit, millis: POLL_MS }),
            UnitPoll::Exited(code) => self.finish(code),
            UnitPoll::WaitFailed => self.finish(-1i64),
        }
    }

    /// After a poll. Shutdown stops the unit and ends the slot. Else a feed
    /// that names another task than the one recorded last, which is the one
    /// the unit runs, or that names none, preempts the unit. Either way the
    /// unit is stopped within the grace period, whatever the poll found of
    /// it, on the first poll as on any other.
    pub open spec fn after_poll(
        self,
        unit: Seq<char>,
        shutdown: bool,
        feed_name: Option<Seq<char>>,
        poll: UnitPoll,
    ) -> (SlotView, SlotActionView) {
        if shutdown || feed_name != self.last_task_name {
            (
                self.at(PhaseView::Stopping { unit, shutdown }),
                SlotActionView::Stop { unit, grace_secs: self.stop_timeout },
            )
        } else {
            self.at(PhaseView::Running { unit }).unit_polled(unit, poll)
        }
    }

    /// After a stop: the unit is removed. A preempted unit is no longer
    /// active and leaves no failure behind.
    pub open spec fn after_stop(self, unit: Seq<char>, shutdown: bool) -> (SlotView, SlotActionView) {
        (
            (if shutdown {
                self
            } else {
                self.preempted()
            }).at(PhaseView::Removing { unit, shutdown }),
            SlotActionView::Remove { unit },
        )
    }

    /// After a removal: the slot ends at shutdown, else the round ends.
    pub open spec fn after_remove(self, shutdown: bool) -> (SlotView, SlotActionView) {
        if shutdown {
            (SlotView { current_unit: None, ..self }.at(PhaseView::Exited), SlotActionView::Exit)
        } else {
            self.pause()
        }
    }

    /// After a wait.
    pub open spec fn after_sleep(self, wake: WakeView, interrupted: bool) -> (
        SlotView,
        SlotActionView,
    ) {
        match wake {
            WakeView::Observe => (self.at(PhaseView::Observing), SlotActionView::Observe),
            WakeView::Pause => self.pause(),
            WakeView::PullAgain { task, attempt } => (
                self.at(PhaseView::Pulling { task, attempt: one_more(attempt) }),
                SlotActionView::Pull { image: task.image },
            ),
            WakeView::StartAgain { task, attempt } => if interrupted {
                self.give_up_start()
            } else {
                (
                    self.at(PhaseView::Starting { task, attempt: one_more(attempt) }),
                    SlotActionView::Start(self.start_request(task)),
                )
            },
        }
    }

    /// One step of the machine: the new state and the action, or none where
    /// the phase does not wait for the event.
    pub open spec fn step(self, event: SlotEventView) -> Option<(SlotView, SlotActionView)> {
        match (self.phase, event) {
            (PhaseView::Observing, SlotEventView::Observed { shutdown, task }) => Some(
                self.observe(shutdown, task),
            ),
            (PhaseView::Pulling { task, attempt }, SlotEventView::PullFinished(outcome)) => Some(
                self.after_pull(task, attempt, outcome),
            ),
            (PhaseView::Starting { task, attempt }, SlotEventView::StartFinished(outcome)) => Some(
                self.after_start(task, attempt, outcome),
            ),
            (
                PhaseView::Running { unit },
                SlotEventView::Polled { shutdown, feed_name, unit: poll },
            ) => Some(self.after_poll(unit, shutdown, feed_name, poll)),
            (PhaseView::Stopping { unit, shutdown }, SlotEventView::Stopped) => Some(
                self.after_stop(unit, shutdown),
            ),
            (PhaseView::Removing { unit, shutdown }, SlotEventView::Removed) => Some(
                self.after_remove(shutdown),
            ),
            (PhaseView::Sleeping(wake), SlotEventView::SleepFinished { interrupted }) => Some(
                self.after_sleep(wake, interrupted),
            ),
            _ => None,
        }
    }

    /// The task that the phase works on, if it works on one.
    pub open spec fn task_in_hand(self) -> Option<TaskConfigView> {
        match self.phase {
            PhaseView::Pulling { task, .. } => Some(task),
            PhaseView::Starting { task, .. } => Some(task),
            PhaseView::Sleeping(WakeView::PullAgain { task, .. }) => Some(task),
            PhaseView::Sleeping(WakeView::StartAgain { task, .. }) => Some(task),
            _ => None,
        }
    }

    /// The unit that the phase works on, if it works on one.
    pub open spec fn unit_in_hand(self) -> Option<Seq<char>> {
        match self.phase {
            PhaseView::Running { unit, .. } => Some(unit),
            PhaseView::Stopping { unit, .. } => Some(unit),
            PhaseView::Removing { unit, shutdown: true } => Some(unit),
            _ => None,
        }
    }

    /// The controller's invariant: the task in hand is the one whose name
    /// was recorded last, and a unit is active exactly while the phase
    /// works on it.
    pub open spec fn wf(self) -> bool {
        &&& self.task_in_hand() matches Some(task) ==> self.last_task_name == Some(task.task_name)
        &&& self.current_unit == self.unit_in_hand()
    }
}

/// Every step keeps the controller's invariant.
pub proof fn law_step_keeps_wf(s: SlotView, e: SlotEventView)
    ensures
        s.wf() ==> (s.step(e) matches Some(r) ==> r.0.wf()),
{
}

/// Shutdown comes before any new work: a slot that is shown the shutdown
/// flag at the top of a round pulls and starts nothing, whatever the feed
/// holds. A slot that meets its invariant holds no unit then, and ends at
/// once; in any other state the unit held is stopped within the grace
/// period.
pub proof fn law_shutdown_first(s: SlotView, task: Option<TaskConfigView>)
    requires
        s.phase is Observing,
    ensures
        s.step(SlotEventView::Observed { shutdown: true, task }) matches Some((t, a)) && (match
            s.current_unit {
            Some(unit) => a == (SlotActionView::Stop { unit, grace_secs: s.stop_timeout }),
            None => a is Exit && t.phase is Exited,
        }),
        s.wf() ==> s.current_unit is None,
{
}

/// Shutdown while a unit runs: the unit is stopped within the grace period,
/// whatever the feed holds and whatever the poll found; then it is removed;
/// then the slot ends, holding no unit.
pub proof fn law_shutdown_stops_running_unit(
    s: SlotView,
    unit: Seq<char>,
    feed_name: Option<Seq<char>>,
    poll: UnitPoll,
)
    requires
        s.phase == (PhaseView::Running { unit }),
    ensures
        s.step(SlotEventView::Polled { shutdown: true, feed_name, unit: poll }) == Some(
            (
                s.at(PhaseView::Stopping { unit, shutdown: true }),
                SlotActionView::Stop { unit, grace_secs: s.stop_timeout },
            ),
        ),
        s.at(PhaseView::Stopping { unit, shutdown: true }).step(SlotEventView::Stopped) == Some(
            (s.at(PhaseView::Removing { unit, shutdown: true }), SlotActionView::Remove { unit }),
        ),
        s.at(PhaseView::Removing { unit, shutdown: true }).step(SlotEventView::Removed)
            matches Some((t, a)) && a is Exit && t.phase is Exited && t.current_unit is None,
{
}

/// A task whose name is the one handled last starts nothing: the slot only
/// pauses. A task with another name is pulled, and its name is recorded.
pub proof fn law_only_a_new_name_starts_work(s: SlotView, task: TaskConfigView)
    requires
        s.phase is Observing,
    ensures
        s.step(SlotEventView::Observed { shutdown: false, task: Some(task) }) matches Some((t, a))
            && (if s.last_task_name == Some(task.task_name) {
            a == (SlotActionView::Sleep { millis: PAUSE_MS, interruptible: false }) && t == s.at(
                t.phase,
            )
        } else {
            a == (SlotActionView::Pull { image: task.image }) && t.last_task_name == Some(
                task.task_name,
            ) && t.consecutive_failures == 0 && t.fault is None
        }),
{
}

/// Whatever is pulled or started is the task whose name was recorded last;
/// and but for the observation that takes a new task up, no step changes
/// that name while a task is set.
pub proof fn law_work_is_for_recorded_name(s: SlotView, e: SlotEventView)
    requires
        s.wf(),
    ensures
        s.step(e) matches Some((t, a)) ==> {
            &&& a matches SlotActionView::Pull { image } ==> t.task_in_hand() matches Some(task)
                && image == task.image && t.last_task_name == Some(task.task_name)
            &&& a matches SlotActionView::Start(req) ==> t.task_in_hand() matches Some(task)
                && req.task_name == task.task_name && req.image == task.image && t.last_task_name
                == Some(task.task_name) && t.last_task_name == s.last_task_name
            &&& !(s.phase is Observing) ==> t.last_task_name == s.last_task_name
        },
{
}

/// A change of the task while a unit is active preempts the unit: where
/// the feed names another task than the one recorded last, or none, the
/// unit is stopped within the grace period, whatever the poll found of it,
/// and then removed. That is no failure: the failure counter is zero
/// afterwards and no fault is recorded. The name recorded last stays, so
/// the unit is not started again under it.
pub proof fn law_task_change_preempts(
    s: SlotView,
    unit: Seq<char>,
    feed_name: Option<Seq<char>>,
    poll: UnitPoll,
)
    requires
        s.phase == (PhaseView::Running { unit }),
        feed_name != s.last_task_name,
    ensures
        s.step(SlotEventView::Polled { shutdown: false, feed_name, unit: poll }) == Some(
            (
                s.at(PhaseView::Stopping { unit, shutdown: false }),
                SlotActionView::Stop { unit, grace_secs: s.stop_timeout },
            ),
        ),
        s.at(PhaseView::Stopping { unit, shutdown: false }).step(SlotEventView::Stopped) == Some(
            (
                s.preempted().at(PhaseView::Removing { unit, shutdown: false }),
                SlotActionView::Remove { unit },
            ),
        ),
        s.preempted().at(PhaseView::Removing { unit, shutdown: false }).step(SlotEventView::Removed)
            == Some(s.preempted().pause()),
        s.preempted().consecutive_failures == 0,
        s.preempted().fault is None,
        s.preempted().current_unit is None,
        s.preempted().last_task_name == s.last_task_name,
        s.preempted().pause().0.last_task_name == s.last_task_name,
{
}

/// The unit that runs was started for the task whose name is recorded
/// last: from the start of a unit to its first poll, and from poll to poll,
/// that name does not change. So the name that a poll holds the feed
/// against is the name of the task that the unit runs.
pub proof fn law_running_unit_is_of_recorded_name(s: SlotView, e: SlotEventView)
    requires
        s.wf(),
    ensures
        s.step(e) matches Some((t, a)) ==> (t.phase is Running ==> {
            &&& t.last_task_name == s.last_task_name
            &&& s.phase matches PhaseView::Starting { task, .. } ==> t.last_task_name == Some(
                task.task_name,
            )
            &&& s.phase is Starting || s.phase is Running
        }),
{
}

/// While the feed names the task that the unit runs, a unit that ends with
/// code zero clears the slot's failures, and one that ends with another
/// code adds one failure and is recorded as the slot's fault. A unit that
/// still runs is polled again.
pub proof fn law_exit_code(s: SlotView, unit: Seq<char>, poll: UnitPoll)
    requires
        s.phase == (PhaseView::Running { unit }),
    ensures
        s.step(SlotEventView::Polled { shutdown: false, feed_name: s.last_task_name, unit: poll })
            matches Some((t, a)) && (match poll {
            UnitPoll::StillRunning => t == s && a == (SlotActionView::Poll { unit, millis: POLL_MS }),
            UnitPoll::Exited(code) => t.current_unit is None && (if code == 0 {
                t.consecutive_failures == 0 && t.fault is None
            } else {
                t.consecutive_failures == one_more(s.consecutive_failures) && t.fault == Some(
                    SlotFaultView::ExitCode(code),
                )
            }),
            UnitPoll::WaitFailed => t.current_unit is None && t.consecutive_failures == one_more(
                s.consecutive_failures,
            ),
        }),
{
}

/// The back-off grows with the failures in a row and never passes its cap.
pub proof fn law_backoff_monotone(fewer: u32, more: u32)
    requires
        fewer <= more,
    ensures
        0 <= backoff_secs(fewer) <= backoff_secs(more) <= BACKOFF_CAP_SECS,
        backoff_secs(fewer) == if 10 * fewer < 60 {
            10 * fewer
        } else {
            60
        },
{
}

/// A counter of failures never decreases by a failure, and grows by one
/// below its limit.
pub proof fn law_one_more(failures: u32)
    ensures
        failures <= one_more(failures),
        failures < u32::MAX ==> one_more(failures) == failures + 1,
{
}

} // verus!
