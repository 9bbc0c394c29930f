//! The executable slot controller: the state of one slot and the step that
//! takes it from one event to the next action, as the model in
//! [`crate::slot`] says.

use crate::slot::{
    backoff_secs, one_more, opt_fault_view, optional_var, unit_env, Phase, PhaseView, SlotAction,
    SlotEvent, SlotFault, SlotFaultView, SlotMisuse, SlotView, StartRequest, UnitPoll, Wake,
    BACKOFF_CAP_SECS, BACKOFF_STEP_SECS, IDLE_WAIT_MS, PAUSE_MS, POLL_MS, PULL_ATTEMPTS,
    PULL_FAILURE_WAIT_MS, RETRY_DELAY_MS, START_ATTEMPTS,
};
use crate::liveness::{SlotReport, SlotReportView};
use crate::task::TaskConfig;
use crate::text::{
    clone_opt, decimal_text, opt_text, pairs_text, render_signed, render_unsigned, same_opt_text,
};
use vstd::prelude::*;
use vstd::string::*;

verus! {

/// The state of one execution slot.
#[derive(Debug, PartialEq, Eq)]
pub struct SlotController {
    slot: u32,
    node_id: String,
    stop_timeout: u64,
    container_memory: u64,
    last_task_name: Option<String>,
    consecutive_failures: u32,
    current_unit: Option<String>,
    fault: Option<SlotFault>,
    phase: Phase,
}

impl View for SlotController {
    type V = SlotView;

    closed spec fn view(&self) -> SlotView {
        SlotView {
            slot: self.slot,
            node_id: self.node_id@,
            stop_timeout: self.stop_timeout,
            container_memory: self.container_memory,
            last_task_name: opt_text(self.last_task_name),
            consecutive_failures: self.consecutive_failures,
            current_unit: opt_text(self.current_unit),
            fault: opt_fault_view(self.fault),
            phase: self.phase@,
        }
    }
}

/// A slot that has handled nothing yet and waits for its first observation.
pub open spec fn fresh_slot(
    slot: u32,
    node_id: Seq<char>,
    stop_timeout: u64,
    container_memory: u64,
) -> SlotView {
    SlotView {
        slot,
        node_id,
        stop_timeout,
        container_memory,
        last_task_name: None,
        consecutive_failures: 0,
        current_unit: None,
        fault: None,
        phase: PhaseView::Observing,
    }
}

/// The text that a fault is recorded with.
pub open spec fn fault_text(fault: SlotFaultView) -> Seq<char> {
    match fault {
        SlotFaultView::PullFailed(message) => "Image pull failed: "@ + message,
        SlotFaultView::StartFailed => "Failed to start container after 3 attempts"@,
        SlotFaultView::ExitCode(code) => "Container exited with code "@ + decimal_text(code as int),
    }
}

impl SlotFault {
    /// The text that the fault is recorded with.
    pub fn message(&self) -> (text: String)
        ensures
            text@ == fault_text(self@),
    {
        match self {
            SlotFault::PullFailed(message) => String::from_str("Image pull failed: ").concat(
                message.as_str(),
            ),
            SlotFault::StartFailed => String::from_str("Failed to start container after 3 attempts"),
            SlotFault::ExitCode(code) => String::from_str("Container exited with code ").concat(
                render_signed(*code).as_str(),
            ),
        }
    }
}

/// A failure counter after one more failure.
pub fn count_failure(failures: u32) -> (r: u32)
    ensures
        r == one_more(failures),
{
    if failures < u32::MAX {
        failures + 1
    } else {
        failures
    }
}

/// Milliseconds of back-off after `failures` consecutive failures.
pub fn backoff_millis(failures: u32) -> (millis: u64)
    ensures
        millis == backoff_secs(failures) * 1000,
{
    if failures >= 6 {
        BACKOFF_CAP_SECS * 1000
    } else {
        BACKOFF_STEP_SECS * (failures as u64) * 1000
    }
}

fn push_optional(env: &mut Vec<(String, String)>, name: &str, value: &Option<String>)
    ensures
        pairs_text(final(env)@) == pairs_text(old(env)@) + optional_var(name@, opt_text(*value)),
{
    match value {
        Some(v) => {
            env.push((String::from_str(name), v.clone()));
            assert(pairs_text(final(env)@) =~= pairs_text(old(env)@) + optional_var(
                name@,
                opt_text(*value),
            ));
        },
        None => {
            assert(pairs_text(final(env)@) =~= pairs_text(old(env)@) + optional_var(
                name@,
                opt_text(*value),
            ));
        },
    }
}

/// Builds the environment of a unit.
pub fn build_env(task: &TaskConfig, node_id: &str, slot: u32) -> (env: Vec<(String, String)>)
    ensures
        pairs_text(env@) == unit_env(task@, node_id@, slot),
{
    let mut env: Vec<(String, String)> = Vec::new();
    env.push((String::from_str("TASK_NAME"), task.task_name.clone()));
    env.push((String::from_str("NODE_ID"), String::from_str(node_id)));
    env.push((String::from_str("INSTANCE_ID"), render_unsigned(slot as u64)));
    assert(pairs_text(env@) =~= seq![
        ("TASK_NAME"@, task@.task_name),
        ("NODE_ID"@, node_id@),
        ("INSTANCE_ID"@, crate::text::decimal_digits(slot as nat)),
    ]);
    push_optional(&mut env, "INPUT_REDIS_URL", &task.input_redis);
    push_optional(&mut env, "OUTPUT_REDIS_URL", &task.output_redis);
    push_optional(&mut env, "INPUT_QUEUE", &task.input_queue);
    push_optional(&mut env, "OUTPUT_QUEUE", &task.output_queue);
    env
}

impl SlotController {
    /// The controller of slot `slot` of node `node_id`. Its first action is
    /// [`SlotAction::Observe`].
    pub fn new(slot: u32, node_id: String, stop_timeout: u64, container_memory: u64) -> (c: Self)
        ensures
            c@ == fresh_slot(slot, node_id@, stop_timeout, container_memory),
            c@.wf(),
    {
        SlotController {
            slot,
            node_id,
            stop_timeout,
            container_memory,
            last_task_name: None,
            consecutive_failures: 0,
            current_unit: None,
            fault: None,
            phase: Phase::Observing,
        }
    }

    /// The slot's index on its node.
    pub fn slot(&self) -> (r: u32)
        ensures
            r == self@.slot,
    {
        self.slot
    }

    /// The number of failures in a row.
    pub fn consecutive_failures(&self) -> (r: u32)
        ensures
            r == self@.consecutive_failures,
    {
        self.consecutive_failures
    }

    /// Whether a unit is active in the slot.
    pub fn is_active(&self) -> (r: bool)
        ensures
            r == self@.current_unit is Some,
    {
        self.current_unit.is_some()
    }

    /// The slot's recorded fault, if it has one.
    pub fn fault(&self) -> (r: Option<&SlotFault>)
        ensures
            match r {
                Some(f) => self@.fault == Some(f@),
                None => self@.fault is None,
            },
    {
        self.fault.as_ref()
    }

    /// The name of the task that the slot handled last.
    pub fn last_task_name(&self) -> (r: Option<&String>)
        ensures
            match r {
                Some(n) => self@.last_task_name == Some(n@),
                None => self@.last_task_name is None,
            },
    {
        self.last_task_name.as_ref()
    }

    /// The phase that the slot is in.
    pub fn phase(&self) -> (r: &Phase)
        ensures
            r@ == self@.phase,
    {
        &self.phase
    }

    /// Whether the slot has ended.
    pub fn has_exited(&self) -> (r: bool)
        ensures
            r == self@.phase is Exited,
    {
        match self.phase {
            Phase::Exited => true,
            _ => false,
        }
    }

    /// What the slot shows to the rest of the node: whether a unit is
    /// active, and the text of its fault.
    pub fn report(&self) -> (r: SlotReport)
        ensures
            r@ == (SlotReportView {
                active: self@.current_unit is Some,
                error: match self@.fault {
                    Some(f) => Some(fault_text(f)),
                    None => None,
                },
            }),
    {
        SlotReport {
            active: self.current_unit.is_some(),
            error: match &self.fault {
                Some(f) => Some(f.message()),
                None => None,
            },
        }
    }

    fn start_request(&self, task: &TaskConfig) -> (r: StartRequest)
        ensures
            r@ == self@.start_request(task@),
    {
        StartRequest {
            task_name: task.task_name.clone(),
            image: task.image.clone(),
            node_id: self.node_id.clone(),
            slot: self.slot,
            env: build_env(task, self.node_id.as_str(), self.slot),
            memory_mb: self.container_memory,
        }
    }

    fn clear(&mut self)
        ensures
            final(self)@ == old(self)@.cleared(),
    {
        self.consecutive_failures = 0;
        self.fault = None;
    }

    fn fail(&mut self, fault: SlotFault)
        ensures
            final(self)@ == old(self)@.failed(fault@),
    {
        self.consecutive_failures = count_failure(self.consecutive_failures);
        self.fault = Some(fault);
    }

    fn pause(&mut self) -> (a: SlotAction)
        ensures
            (final(self)@, a@) == old(self)@.pause(),
    {
        self.phase = Phase::Sleeping(Wake::Observe);
        SlotAction::Sleep { millis: PAUSE_MS, interruptible: false }
    }

    fn give_up_start(&mut self) -> (a: SlotAction)
        ensures
            (final(self)@, a@) == old(self)@.give_up_start(),
    {
        self.fail(SlotFault::StartFailed);
        self.phase = Phase::Sleeping(Wake::Pause);
        SlotAction::Sleep { millis: backoff_millis(self.consecutive_failures), interruptible: true }
    }

    fn finish(&mut self, code: i64) -> (a: SlotAction)
        ensures
            (final(self)@, a@) == old(self)@.finish(code),
    {
        self.current_unit = None;
        if code == 0 {
            self.clear();
        } else {
            self.fail(SlotFault::ExitCode(code));
        }
        self.pause()
    }

    fn observe(&mut self, shutdown: bool, task: Option<TaskConfig>) -> (a: SlotAction)
        ensures
            (final(self)@, a@) == old(self)@.observe(shutdown, crate::task::opt_config_view(task)),
    {
        if shutdown {
            match clone_opt(&self.current_unit) {
                Some(unit) => {
                    self.phase = Phase::Stopping { unit: unit.clone(), shutdown: true };
                    SlotAction::Stop { unit, grace_secs: self.stop_timeout }
                },
                None => {
                    self.phase = Phase::Exited;
                    SlotAction::Exit
                },
            }
        } else {
            match task {
                Some(t) => {
                    let same = match &self.last_task_name {
                        Some(name) => *name == t.task_name,
                        None => false,
                    };
                    if !same {
                        self.last_task_name = Some(t.task_name.clone());
                        self.clear();
                        let image = t.image.clone();
                        self.phase = Phase::Pulling { task: t, attempt: 1 };
                        SlotAction::Pull { image }
                    } else {
                        self.pause()
                    }
                },
                None => {
                    if self.last_task_name.is_some() {
                        self.last_task_name = None;
                        self.clear();
                    }
                    self.phase = Phase::Sleeping(Wake::Pause);
                    SlotAction::Sleep { millis: IDLE_WAIT_MS, interruptible: true }
                },
            }
        }
    }

    fn after_pull(&mut self, task: TaskConfig, attempt: u32, outcome: Result<(), String>) -> (a:
        SlotAction)
        ensures
            (final(self)@, a@) == old(self)@.after_pull(
                task@,
                attempt,
                match outcome {
                    Ok(_) => Ok(()),
                    Err(m) => Err(m@),
                },
            ),
    {
        match outcome {
            Ok(_) => {
                let req = self.start_request(&task);
                self.phase = Phase::Starting { task, attempt: 1 };
                SlotAction::Start(req)
            },
            Err(message) => {
                if attempt < PULL_ATTEMPTS {
                    self.phase = Phase::Sleeping(Wake::PullAgain { task, attempt });
                    SlotAction::Sleep { millis: RETRY_DELAY_MS, interruptible: false }
                } else {
                    self.fail(SlotFault::PullFailed(message));
                    self.phase = Phase::Sleeping(Wake::Observe);
                    SlotAction::Sleep { millis: PULL_FAILURE_WAIT_MS, interruptible: true }
                }
            },
        }
    }

    fn after_start(&mut self, task: TaskConfig, attempt: u32, outcome: Result<String, String>) -> (a:
        SlotAction)
        ensures
            (final(self)@, a@) == old(self)@.after_start(
                task@,
                attempt,
                match outcome {
                    Ok(u) => Ok(u@),
                    Err(m) => Err(m@),
                },
            ),
    {
        match outcome {
            Ok(unit) => {
                self.current_unit = Some(unit.clone());
                self.fault = None;
                self.phase = Phase::Running { unit: unit.clone() };
                SlotAction::Poll { unit, millis: POLL_MS }
            },
            Err(_) => {
                if attempt < START_ATTEMPTS {
                    self.phase = Phase::Sleeping(Wake::StartAgain { task, attempt });
                    SlotAction::Sleep { millis: RETRY_DELAY_MS, interruptible: true }
                } else {
                    self.give_up_start()
                }
            },
        }
    }

    fn unit_polled(&mut self, unit: String, poll: UnitPoll) -> (a: SlotAction)
        ensures
            (final(self)@, a@) == old(self)@.unit_polled(unit@, poll),
    {
        match poll {
            UnitPoll::StillRunning => SlotAction::Poll { unit, millis: POLL_MS },
            UnitPoll::Exited(code) => self.finish(code),
            UnitPoll::WaitFailed => self.finish(-1),
        }
    }

    fn after_poll(
        &mut self,
        unit: String,
        shutdown: bool,
        feed_name: Option<String>,
        poll: UnitPoll,
    ) -> (a: SlotAction)
        ensures
            (final(self)@, a@) == old(self)@.after_poll(unit@, shutdown, opt_text(feed_name), poll),
    {
        if shutdown || !same_opt_text(&feed_name, &self.last_task_name) {
            self.phase = Phase::Stopping { unit: unit.clone(), shutdown };
            SlotAction::Stop { unit, grace_secs: self.stop_timeout }
        } else {
            self.phase = Phase::Running { unit: unit.clone() };
            self.unit_polled(unit, poll)
        }
    }

    fn after_stop(&mut self, unit: String, shutdown: bool) -> (a: SlotAction)
        ensures
            (final(self)@, a@) == old(self)@.after_stop(unit@, shutdown),
    {
        if !shutdown {
            self.current_unit = None;
            self.clear();
        }
        self.phase = Phase::Removing { unit: unit.clone(), shutdown };
        SlotAction::Remove { unit }
    }

    fn after_remove(&mut self, shutdown: bool) -> (a: SlotAction)
        ensures
            (final(self)@, a@) == old(self)@.after_remove(shutdown),
    {
        if shutdown {
            self.current_unit = None;
            self.phase = Phase::Exited;
            SlotAction::Exit
        } else {
            self.pause()
        }
    }

    fn after_sleep(&mut self, wake: Wake, interrupted: bool) -> (a: SlotAction)
        ensures
            (final(self)@, a@) == old(self)@.after_sleep(wake@, interrupted),
    {
        match wake {
            Wake::Observe => {
                self.phase = Phase::Observing;
                SlotAction::Observe
            },
            Wake::Pause => self.pause(),
            Wake::PullAgain { task, attempt } => {
                let image = task.image.clone();
                self.phase = Phase::Pulling { task, attempt: count_failure(attempt) };
                SlotAction::Pull { image }
            },
            Wake::StartAgain { task, attempt } => {
                if interrupted {
                    self.give_up_start()
                } else {
                    let req = self.start_request(&task);
                    self.phase = Phase::Starting { task, attempt: count_failure(attempt) };
                    SlotAction::Start(req)
                }
            },
        }
    }

    /// Takes the slot from the event that ended its last action to its next
    /// action.
    ///
    /// The new state and the action are those of the model's step. An event
    /// that the phase does not wait for is refused, and nothing changes.
    pub fn step(&mut self, event: SlotEvent) -> (r: Result<SlotAction, SlotMisuse>)
        ensures
            match r {
                Ok(action) => old(self)@.step(event@) == Some((final(self)@, action@)),
                Err(e) => old(self)@.step(event@) is None && final(self)@ == old(self)@ && e
                    == SlotMisuse::UnexpectedEvent,
            },
            old(self)@.wf() ==> final(self)@.wf(),
    {
        proof {
            crate::slot::law_step_keeps_wf(old(self)@, event@);
        }
        let mut phase = Phase::Exited;
        core::mem::swap(&mut self.phase, &mut phase);
        let ghost before = old(self)@;
        assert(self@ == before.at(PhaseView::Exited));
        match (phase, event) {
            (Phase::Observing, SlotEvent::Observed { shutdown, task }) => Ok(
                self.observe(shutdown, task),
            ),
            (Phase::Pulling { task, attempt }, SlotEvent::PullFinished(outcome)) => Ok(
                self.after_pull(task, attempt, outcome),
            ),
            (Phase::Starting { task, attempt }, SlotEvent::StartFinished(outcome)) => Ok(
                self.after_start(task, attempt, outcome),
            ),
            (
                Phase::Running { unit },
                SlotEvent::Polled { shutdown, feed_name, unit: poll },
            ) => Ok(self.after_poll(unit, shutdown, feed_name, poll)),
            (Phase::Stopping { unit, shutdown }, SlotEvent::Stopped) => Ok(
                self.after_stop(unit, shutdown),
            ),
            (Phase::Removing { unit, shutdown }, SlotEvent::Removed) => Ok(
                self.after_remove(shutdown),
            ),
            (Phase::Sleeping(wake), SlotEvent::SleepFinished { interrupted }) => Ok(
                self.after_sleep(wake, interrupted),
            ),
            (other, _) => {
                self.phase = other;
                Err(SlotMisuse::UnexpectedEvent)
            },
        }
    }
}

} // verus!
