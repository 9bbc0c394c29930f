//! The hub's task queue: an ordered list of tasks with their status and a
//! single pointer to the current task. The pointer only ever moves forward,
//! one entry at a time; nothing is removed or reordered.

use crate::task::{Task, TaskStatus, TaskView};
use vstd::prelude::*;
use vstd::string::*;

verus! {

/// The task queue.
#[derive(Debug, PartialEq, Eq)]
pub struct TaskQueue {
    /// Every task ever appended, in order, with its status.
    pub tasks: Vec<(Task, TaskStatus)>,
    /// The index of the current task; none before the first advance.
    pub current_task_index: Option<usize>,
}

/// The mathematical content of a [`TaskQueue`].
pub struct QueueView {
    pub tasks: Seq<(TaskView, TaskStatus)>,
    pub current: Option<int>,
}

/// The names of the tasks, by status, as the hub lists them.
#[derive(Debug, PartialEq, Eq)]
pub struct TaskListResponse {
    pub current: Option<String>,
    pub pending: Vec<String>,
    pub completed: Vec<String>,
}

/// One change to the queue.
pub enum QueueOp {
    Append(TaskView),
    Advance,
}

/// The content of a list of queue entries.
pub open spec fn entries(v: Seq<(Task, TaskStatus)>) -> Seq<(TaskView, TaskStatus)> {
    Seq::new(v.len(), |i: int| (v[i].0@, v[i].1))
}

/// The characters of each string of a list.
pub open spec fn texts(v: Seq<String>) -> Seq<Seq<char>> {
    Seq::new(v.len(), |i: int| v[i]@)
}

impl View for TaskQueue {
    type V = QueueView;

    open spec fn view(&self) -> QueueView {
        QueueView {
            tasks: entries(self.tasks@),
            current: match self.current_task_index {
                Some(c) => Some(c as int),
                None => None,
            },
        }
    }
}

impl QueueView {
    /// The queue's invariant: before the first advance every entry is
    /// pending; afterwards the current entry is the one running entry, all
    /// entries before it are completed and all after it are pending.
    pub open spec fn wf(self) -> bool {
        match self.current {
            None => forall|i: int|
                0 <= i < self.tasks.len() ==> (#[trigger] self.tasks[i]).1 == TaskStatus::Pending,
            Some(c) => {
                &&& 0 <= c < self.tasks.len()
                &&& forall|i: int|
                    0 <= i < self.tasks.len() ==> (#[trigger] self.tasks[i]).1 == (if i < c {
                        TaskStatus::Completed
                    } else if i == c {
                        TaskStatus::Running
                    } else {
                        TaskStatus::Pending
                    })
            },
        }
    }

    /// The position of the pointer as a number: -1 before the first advance.
    pub open spec fn rank(self) -> int {
        match self.current {
            Some(c) => c,
            None => -1,
        }
    }

    /// The index that an advance moves to.
    pub open spec fn next_index(self) -> int {
        self.rank() + 1
    }

    /// Whether no entry is left to advance to.
    pub open spec fn exhausted(self) -> bool {
        !(0 <= self.next_index() < self.tasks.len())
    }

    /// The task at the pointer.
    pub open spec fn current_task(self) -> Option<TaskView> {
        match self.current {
            Some(c) => if 0 <= c < self.tasks.len() {
                Some(self.tasks[c].0)
            } else {
                None
            },
            None => None,
        }
    }

    /// The name reported for the entry that an advance leaves: "none" before
    /// the first advance.
    pub open spec fn previous_name(self) -> Seq<char> {
        match self.current_task() {
            Some(t) => t.name,
            None => "none"@,
        }
    }

    /// The queue with one more pending task at its end.
    pub open spec fn appended(self, task: TaskView) -> QueueView {
        QueueView { tasks: self.tasks.push((task, TaskStatus::Pending)), current: self.current }
    }

    /// The entries once the current one, if there is one, is marked
    /// completed.
    pub open spec fn with_current_completed(self) -> Seq<(TaskView, TaskStatus)> {
        match self.current {
            Some(c) => if 0 <= c < self.tasks.len() {
                self.tasks.update(c, (self.tasks[c].0, TaskStatus::Completed))
            } else {
                self.tasks
            },
            None => self.tasks,
        }
    }

    /// The queue after an advance: unchanged when exhausted; else the entry
    /// left is completed, the pointer is one further and the entry reached
    /// is running.
    pub open spec fn advanced(self) -> QueueView {
        if self.exhausted() {
            self
        } else {
            let n = self.next_index();
            QueueView {
                tasks: self.with_current_completed().update(n, (self.tasks[n].0, TaskStatus::Running)),
                current: Some(n),
            }
        }
    }

    /// The queue after one change.
    pub open spec fn apply(self, op: QueueOp) -> QueueView {
        match op {
            QueueOp::Append(t) => self.appended(t),
            QueueOp::Advance => self.advanced(),
        }
    }

    /// The queue after a sequence of changes.
    pub open spec fn run(self, ops: Seq<QueueOp>) -> QueueView
        decreases ops.len(),
    {
        if ops.len() == 0 {
            self
        } else {
            self.run(ops.drop_last()).apply(ops.last())
        }
    }
}

/// The queue that holds nothing and has never been advanced.
pub open spec fn empty_queue() -> QueueView {
    QueueView { tasks: Seq::empty(), current: None }
}

/// The names of the entries with the given status, in queue order.
pub open spec fn names_with(tasks: Seq<(TaskView, TaskStatus)>, status: TaskStatus) -> Seq<
    Seq<char>,
>
    decreases tasks.len(),
{
    if tasks.len() == 0 {
        Seq::empty()
    } else if tasks.last().1 == status {
        names_with(tasks.drop_last(), status).push(tasks.last().0.name)
    } else {
        names_with(tasks.drop_last(), status)
    }
}

/// The name of the last running entry.
pub open spec fn running_name(tasks: Seq<(TaskView, TaskStatus)>) -> Option<Seq<char>>
    decreases tasks.len(),
{
    if tasks.len() == 0 {
        None
    } else if tasks.last().1 == TaskStatus::Running {
        Some(tasks.last().0.name)
    } else {
        running_name(tasks.drop_last())
    }
}

/// The pointer never moves back, whatever is appended and however often the
/// queue is advanced.
pub proof fn law_pointer_monotone(q: QueueView, ops: Seq<QueueOp>)
    ensures
        q.rank() <= q.run(ops).rank(),
    decreases ops.len(),
{
    if ops.len() > 0 {
        law_pointer_monotone(q, ops.drop_last());
    }
}

/// One change moves the pointer forward by at most one entry and never back.
pub proof fn law_pointer_step(q: QueueView, op: QueueOp)
    ensures
        q.rank() <= q.apply(op).rank() <= q.rank() + 1,
        op is Append ==> q.apply(op).rank() == q.rank(),
{
}

/// An advance changes nothing on an empty queue or on one whose pointer
/// stands at the last entry, however often it is repeated.
pub proof fn law_advance_exhausted(q: QueueView)
    ensures
        q.tasks.len() == 0 ==> q.exhausted(),
        q.current == Some(q.tasks.len() - 1) ==> q.exhausted(),
        q.exhausted() ==> q.advanced() == q && q.advanced().advanced() == q,
{
}

/// The entry that the pointer stood at is completed after an advance exactly
/// when the advance succeeded.
pub proof fn law_previous_completed(q: QueueView)
    requires
        q.wf(),
        q.current is Some,
    ensures
        q.advanced().tasks[q.current->0].1 == TaskStatus::Completed <==> !q.exhausted(),
{
}

/// The queue's invariant holds of the empty queue and survives every change.
pub proof fn law_wf_preserved(q: QueueView, op: QueueOp)
    requires
        q.wf(),
    ensures
        q.apply(op).wf(),
        empty_queue().wf(),
{
    let r = q.apply(op);
    match op {
        QueueOp::Append(t) => {
            assert forall|i: int| 0 <= i < r.tasks.len() implies (#[trigger] r.tasks[i]).1 == (
            match q.current {
                None => TaskStatus::Pending,
                Some(c) => if i < c {
                    TaskStatus::Completed
                } else if i == c {
                    TaskStatus::Running
                } else {
                    TaskStatus::Pending
                },
            }) by {
                if i < q.tasks.len() {
                    assert(r.tasks[i] == q.tasks[i]);
                }
            }
        },
        QueueOp::Advance => {
            if !q.exhausted() {
                let n = q.next_index();
                assert forall|i: int| 0 <= i < r.tasks.len() implies (#[trigger] r.tasks[i]).1 == (
                if i < n {
                    TaskStatus::Completed
                } else if i == n {
                    TaskStatus::Running
                } else {
                    TaskStatus::Pending
                }) by {
                    if i != n && Some(i) != q.current {
                        assert(r.tasks[i] == q.tasks[i]);
                    }
                }
            }
        },
    }
}

/// Appending changes neither the current task nor the status or place of
/// any entry that was there.
pub proof fn law_append_keeps_current(q: QueueView, task: TaskView)
    requires
        q.wf(),
    ensures
        q.appended(task).current_task() == q.current_task(),
        q.appended(task).current == q.current,
        forall|i: int| 0 <= i < q.tasks.len() ==> #[trigger] q.appended(task).tasks[i] == q.tasks[i],
{
}

/// In a queue that meets its invariant at most one entry is running: the
/// current one.
pub proof fn law_one_running(q: QueueView, i: int)
    requires
        q.wf(),
        0 <= i < q.tasks.len(),
        q.tasks[i].1 == TaskStatus::Running,
    ensures
        q.current == Some(i),
{
}

impl TaskQueue {
    /// An empty queue that has never been advanced.
    pub fn new() -> (q: Self)
        ensures
            q@ == empty_queue(),
            q@.wf(),
    {
        let q = TaskQueue { tasks: Vec::new(), current_task_index: None };
        assert(q@.tasks =~= Seq::empty());
        q
    }

    /// The task at the pointer, if the pointer stands at one.
    pub fn get_current_task(&self) -> (r: Option<&Task>)
        ensures
            match r {
                Some(t) => self@.current_task() == Some(t@),
                None => self@.current_task() is None,
            },
    {
        match self.current_task_index {
            Some(idx) => {
                if idx < self.tasks.len() {
                    Some(&self.tasks[idx].0)
                } else {
                    None
                }
            },
            None => None,
        }
    }

    /// Appends a task as pending.
    pub fn add_task(&mut self, task: Task)
        ensures
            final(self)@ == old(self)@.appended(task@),
    {
        self.tasks.push((task, TaskStatus::Pending));
        assert(final(self)@.tasks =~= old(self)@.appended(task@).tasks);
    }

    /// Advances to the next task.
    ///
    /// On success the entry left is completed, the entry reached is running,
    /// and the result holds the name of the entry left ("none" before the
    /// first advance) and the name of the entry reached. Where no entry is
    /// left the result is none and nothing changes.
    pub fn next_task(&mut self) -> (r: Option<(String, String)>)
        ensures
            final(self)@ == old(self)@.advanced(),
            match r {
                Some((previous, current)) => {
                    &&& !old(self)@.exhausted()
                    &&& previous@ == old(self)@.previous_name()
                    &&& current@ == old(self)@.tasks[old(self)@.next_index()].0.name
                },
                None => old(self)@.exhausted(),
            },
    {
        let next_idx: usize = match self.current_task_index {
            Some(i) => {
                if i >= self.tasks.len() {
                    return None;
                }
                i + 1
            },
            None => 0,
        };
        if next_idx >= self.tasks.len() {
            return None;
        }
        let prev_name = match self.current_task_index {
            Some(i) => {
                let name = self.tasks[i].0.name.clone();
                self.tasks[i].1 = TaskStatus::Completed;
                name
            },
            None => String::from_str("none"),
        };
        let new_name = self.tasks[next_idx].0.name.clone();
        self.tasks[next_idx].1 = TaskStatus::Running;
        self.current_task_index = Some(next_idx);
        assert(final(self)@.tasks =~= old(self)@.advanced().tasks);
        Some((prev_name, new_name))
    }

    /// The names of the tasks by status: the running one, the pending ones
    /// and the completed ones, each list in queue order.
    pub fn list(&self) -> (r: TaskListResponse)
        ensures
            crate::text::opt_text(r.current) == running_name(self@.tasks),
            texts(r.pending@) == names_with(self@.tasks, TaskStatus::Pending),
            texts(r.completed@) == names_with(self@.tasks, TaskStatus::Completed),
    {
        let mut current: Option<String> = None;
        let mut pending: Vec<String> = Vec::new();
        let mut completed: Vec<String> = Vec::new();
        let ghost all = self@.tasks;
        let mut i: usize = 0;
        while i < self.tasks.len()
            invariant
                i <= self.tasks@.len(),
                all == entries(self.tasks@),
                crate::text::opt_text(current) == running_name(all.take(i as int)),
                texts(pending@) == names_with(all.take(i as int), TaskStatus::Pending),
                texts(completed@) == names_with(all.take(i as int), TaskStatus::Completed),
            decreases self.tasks@.len() - i,
        {
            let ghost upto = all.take(i + 1);
            assert(upto.drop_last() =~= all.take(i as int));
            assert(upto.last() == all[i as int]);
            let name = self.tasks[i].0.name.clone();
            match self.tasks[i].1 {
                TaskStatus::Running => {
                    current = Some(name);
                },
                TaskStatus::Pending => {
                    pending.push(name);
                    assert(texts(pending@) =~= names_with(upto, TaskStatus::Pending));
                },
                TaskStatus::Completed => {
                    completed.push(name);
                    assert(texts(completed@) =~= names_with(upto, TaskStatus::Completed));
                },
            }
            i = i + 1;
        }
        assert(all.take(i as int) =~= all);
        TaskListResponse { current, pending, completed }
    }
}

} // verus!
