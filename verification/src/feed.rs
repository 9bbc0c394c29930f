//! The node's task feed: what the node last learned of the hub's current
//! task, and when that is news to the slots.
//!
//! The hub is polled at a fixed interval. A poll that fails changes nothing,
//! so the node keeps working through a short outage. A poll that succeeds is
//! published to the slots only when the task's name differs from the one
//! published last.

use crate::task::{opt_config_name, opt_config_view, TaskConfig, TaskConfigView};
use vstd::prelude::*;

verus! {

/// What a poll of the hub came back with.
#[derive(Debug, PartialEq, Eq)]
pub enum FeedPoll {
    /// The hub could not be reached, or its answer could not be read.
    Failed,
    /// The hub's current task for this node's platform, if it has one.
    Fetched(Option<TaskConfig>),
}

/// What to do after a poll.
#[derive(Debug, PartialEq, Eq)]
pub enum FeedDecision {
    /// Nothing: the slots already have what the hub holds.
    Keep,
    /// Hand the task, or its absence, to the slots.
    Publish(Option<TaskConfig>),
}

/// The feed's state: the task published last.
#[derive(Debug, PartialEq, Eq)]
pub struct TaskFeed {
    last: Option<TaskConfig>,
}

impl View for TaskFeed {
    type V = Option<TaskConfigView>;

    closed spec fn view(&self) -> Option<TaskConfigView> {
        opt_config_view(self.last)
    }
}

/// Whether a task is news after another: one of the two is absent and the
/// other is not, or their names differ.
pub open spec fn is_news(last: Option<TaskConfigView>, fetched: Option<TaskConfigView>) -> bool {
    opt_config_name(last) != opt_config_name(fetched)
}

/// Whether a task is news after another.
pub fn task_changed(last: &Option<TaskConfig>, fetched: &Option<TaskConfig>) -> (r: bool)
    ensures
        r == is_news(opt_config_view(*last), opt_config_view(*fetched)),
{
    match (last, fetched) {
        (Some(old), Some(new)) => !(old.task_name == new.task_name),
        (None, Some(_)) => true,
        (Some(_), None) => true,
        (None, None) => false,
    }
}

fn clone_config(c: &Option<TaskConfig>) -> (r: Option<TaskConfig>)
    ensures
        r == *c,
{
    match c {
        Some(t) => Some(t.clone()),
        None => None,
    }
}

impl TaskFeed {
    /// A feed whose slots were started with `initial`.
    pub fn new(initial: Option<TaskConfig>) -> (f: Self)
        ensures
            f@ == opt_config_view(initial),
    {
        TaskFeed { last: initial }
    }

    /// The task published last.
    pub fn last(&self) -> (r: &Option<TaskConfig>)
        ensures
            opt_config_view(*r) == self@,
    {
        &self.last
    }

    /// Takes in the result of a poll.
    ///
    /// A failed poll and a task that is no news change nothing. A task that
    /// is news becomes the task published last, and is to be published.
    pub fn observe(&mut self, poll: FeedPoll) -> (decision: FeedDecision)
        ensures
            match poll {
                FeedPoll::Failed => decision is Keep && final(self)@ == old(self)@,
                FeedPoll::Fetched(task) => if is_news(old(self)@, opt_config_view(task)) {
                    decision matches FeedDecision::Publish(p) && p == task && final(self)@
                        == opt_config_view(task)
                } else {
                    decision is Keep && final(self)@ == old(self)@
                },
            },
    {
        match poll {
            FeedPoll::Failed => FeedDecision::Keep,
            FeedPoll::Fetched(task) => {
                if task_changed(&self.last, &task) {
                    self.last = clone_config(&task);
                    FeedDecision::Publish(task)
                } else {
                    FeedDecision::Keep
                }
            },
        }
    }
}

} // verus!
