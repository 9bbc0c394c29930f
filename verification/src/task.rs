//! Tasks, their per-platform images, and the configuration that a node is
//! handed for the current task.

use crate::text::{clone_opt, clone_pairs, opt_text, pairs_text};
use vstd::prelude::*;
use vstd::string::*;

verus! {

/// A containerized batch task. Identified by its name; never changed once it
/// has been appended to the queue.
#[derive(Debug, PartialEq, Eq)]
pub struct Task {
    pub name: String,
    /// The image used on every platform that has no entry of its own.
    pub image: Option<String>,
    /// Images by platform ("os/arch"), each platform at most once.
    pub images: Option<Vec<(String, String)>>,
    pub input_redis: Option<String>,
    pub output_redis: Option<String>,
    pub input_queue: Option<String>,
    pub output_queue: Option<String>,
}

/// The mathematical content of a [`Task`].
pub struct TaskView {
    pub name: Seq<char>,
    pub image: Option<Seq<char>>,
    pub images: Option<Seq<(Seq<char>, Seq<char>)>>,
    pub input_redis: Option<Seq<char>>,
    pub output_redis: Option<Seq<char>>,
    pub input_queue: Option<Seq<char>>,
    pub output_queue: Option<Seq<char>>,
}

impl View for Task {
    type V = TaskView;

    open spec fn view(&self) -> TaskView {
        TaskView {
            name: self.name@,
            image: opt_text(self.image),
            images: match self.images {
                Some(m) => Some(pairs_text(m@)),
                None => None,
            },
            input_redis: opt_text(self.input_redis),
            output_redis: opt_text(self.output_redis),
            input_queue: opt_text(self.input_queue),
            output_queue: opt_text(self.output_queue),
        }
    }
}

/// Where a task stands in the queue.
#[derive(Debug, Clone, Copy, PartialEq, Eq, Structural)]
pub enum TaskStatus {
    Pending,
    Running,
    Completed,
}

/// A task together with its status.
#[derive(Debug, PartialEq, Eq)]
pub struct TaskWithStatus {
    pub task: Task,
    pub status: TaskStatus,
}

/// What a node needs to run the current task: the task's name, the image
/// resolved for the node's platform, and the task's optional overrides.
#[derive(Debug, PartialEq, Eq)]
pub struct TaskConfig {
    pub task_name: String,
    pub image: String,
    pub redis_url: Option<String>,
    pub input_redis: Option<String>,
    pub output_redis: Option<String>,
    pub input_queue: Option<String>,
    pub output_queue: Option<String>,
}

/// The mathematical content of a [`TaskConfig`].
pub struct TaskConfigView {
    pub task_name: Seq<char>,
    pub image: Seq<char>,
    pub redis_url: Option<Seq<char>>,
    pub input_redis: Option<Seq<char>>,
    pub output_redis: Option<Seq<char>>,
    pub input_queue: Option<Seq<char>>,
    pub output_queue: Option<Seq<char>>,
}

impl View for TaskConfig {
    type V = TaskConfigView;

    open spec fn view(&self) -> TaskConfigView {
        TaskConfigView {
            task_name: self.task_name@,
            image: self.image@,
            redis_url: opt_text(self.redis_url),
            input_redis: opt_text(self.input_redis),
            output_redis: opt_text(self.output_redis),
            input_queue: opt_text(self.input_queue),
            output_queue: opt_text(self.output_queue),
        }
    }
}

/// The content of an optional task configuration.
pub open spec fn opt_config_view(c: Option<TaskConfig>) -> Option<TaskConfigView> {
    match c {
        Some(t) => Some(t@),
        None => None,
    }
}

/// The name of an optional task configuration.
pub open spec fn opt_config_name(c: Option<TaskConfigView>) -> Option<Seq<char>> {
    match c {
        Some(t) => Some(t.task_name),
        None => None,
    }
}

/// Whether some entry of `entries` has the key `key`.
pub open spec fn has_key(entries: Seq<(Seq<char>, Seq<char>)>, key: Seq<char>) -> bool {
    exists|i: int| 0 <= i < entries.len() && (#[trigger] entries[i]).0 == key
}

/// Whether no key occurs twice in `entries`.
pub open spec fn distinct_keys(entries: Seq<(Seq<char>, Seq<char>)>) -> bool {
    forall|i: int, j: int|
        0 <= i < j < entries.len() ==> (#[trigger] entries[i]).0 != (#[trigger] entries[j]).0
}

/// The value of the first entry of `entries` whose key is `key`.
pub open spec fn lookup(entries: Seq<(Seq<char>, Seq<char>)>, key: Seq<char>) -> Option<
    Seq<char>,
>
    decreases entries.len(),
{
    if entries.len() == 0 {
        None
    } else if entries[0].0 == key {
        Some(entries[0].1)
    } else {
        lookup(entries.skip(1), key)
    }
}

/// The image of a task for a platform: the platform's own entry where the
/// task has one, else the task's default image, else none.
pub open spec fn image_for(task: TaskView, platform: Seq<char>) -> Option<Seq<char>> {
    match task.images {
        Some(m) => match lookup(m, platform) {
            Some(image) => Some(image),
            None => task.image,
        },
        None => task.image,
    }
}

/// The configuration that a task yields for a platform: none where the task
/// has no image for it.
pub open spec fn config_for(task: TaskView, platform: Seq<char>) -> Option<TaskConfigView> {
    match image_for(task, platform) {
        Some(image) => Some(
            TaskConfigView {
                task_name: task.name,
                image,
                redis_url: None,
                input_redis: task.input_redis,
                output_redis: task.output_redis,
                input_queue: task.input_queue,
                output_queue: task.output_queue,
            },
        ),
        None => None,
    }
}

/// `lookup` finds a value exactly when the key occurs.
pub proof fn lemma_lookup_found(entries: Seq<(Seq<char>, Seq<char>)>, key: Seq<char>)
    ensures
        lookup(entries, key) is Some <==> has_key(entries, key),
    decreases entries.len(),
{
    if entries.len() == 0 {
    } else if entries[0].0 == key {
    } else {
        let rest = entries.skip(1);
        lemma_lookup_found(rest, key);
        if has_key(rest, key) {
            let i = choose|i: int| 0 <= i < rest.len() && (#[trigger] rest[i]).0 == key;
            assert(entries[i + 1].0 == key);
        }
        if has_key(entries, key) {
            let i = choose|i: int| 0 <= i < entries.len() && (#[trigger] entries[i]).0 == key;
            assert(rest[i - 1].0 == key);
        }
    }
}

/// Where no key occurs twice, `lookup` of an entry's key yields that entry's
/// value.
pub proof fn lemma_lookup_entry(entries: Seq<(Seq<char>, Seq<char>)>, i: int)
    requires
        distinct_keys(entries),
        0 <= i < entries.len(),
    ensures
        lookup(entries, entries[i].0) == Some(entries[i].1),
    decreases entries.len(),
{
    if i == 0 {
    } else {
        let rest = entries.skip(1);
        assert(entries[0].0 != entries[i].0);
        assert forall|a: int, b: int| 0 <= a < b < rest.len() implies (#[trigger] rest[a]).0 != (
        #[trigger] rest[b]).0 by {
            assert(rest[a] == entries[a + 1]);
            assert(rest[b] == entries[b + 1]);
        }
        assert(rest[i - 1] == entries[i]);
        lemma_lookup_entry(rest, i - 1);
    }
}

/// A platform's own entry wins, whatever the default image is.
pub proof fn law_platform_entry_wins(task: TaskView, i: int)
    requires
        task.images is Some,
        distinct_keys(task.images->0),
        0 <= i < task.images->0.len(),
    ensures
        image_for(task, task.images->0[i].0) == Some(task.images->0[i].1),
{
    lemma_lookup_entry(task.images->0, i);
}

/// Without an entry for the platform the default image is used, and without
/// a default image there is none.
pub proof fn law_default_image_fallback(task: TaskView, platform: Seq<char>)
    requires
        task.images is Some ==> !has_key(task.images->0, platform),
    ensures
        image_for(task, platform) == task.image,
        task.image is None ==> image_for(task, platform) is None,
{
    if task.images is Some {
        lemma_lookup_found(task.images->0, platform);
    }
}

/// The default image is used only when the platform has no entry of its own.
pub proof fn law_default_only_without_entry(task: TaskView, platform: Seq<char>)
    requires
        task.images is Some,
        has_key(task.images->0, platform),
    ensures
        exists|i: int|
            0 <= i < task.images->0.len() && (#[trigger] task.images->0[i]).0 == platform
                && image_for(task, platform) == Some(task.images->0[i].1),
{
    lemma_first_match(task.images->0, platform);
}

/// Where the key occurs, `lookup` yields the value of one of its entries.
pub proof fn lemma_first_match(entries: Seq<(Seq<char>, Seq<char>)>, key: Seq<char>)
    requires
        has_key(entries, key),
    ensures
        exists|i: int|
            0 <= i < entries.len() && (#[trigger] entries[i]).0 == key && lookup(entries, key)
                == Some(entries[i].1),
    decreases entries.len(),
{
    if entries[0].0 == key {
        assert(entries[0].0 == key && lookup(entries, key) == Some(entries[0].1));
    } else {
        let rest = entries.skip(1);
        let w = choose|i: int| 0 <= i < entries.len() && (#[trigger] entries[i]).0 == key;
        assert(rest[w - 1].0 == key);
        lemma_first_match(rest, key);
        let j = choose|i: int|
            0 <= i < rest.len() && (#[trigger] rest[i]).0 == key && lookup(rest, key) == Some(
                rest[i].1,
            );
        assert(entries[j + 1].0 == key && lookup(entries, key) == Some(entries[j + 1].1));
    }
}

fn find_image(entries: &Vec<(String, String)>, platform: &str) -> (r: Option<String>)
    ensures
        opt_text(r) == lookup(pairs_text(entries@), platform@),
{
    let wanted = String::from_str(platform);
    let ghost all = pairs_text(entries@);
    let mut i: usize = 0;
    assert(all.skip(0) =~= all);
    while i < entries.len()
        invariant
            i <= entries.len(),
            all == pairs_text(entries@),
            wanted@ == platform@,
            lookup(all, platform@) == lookup(all.skip(i as int), platform@),
        decreases entries.len() - i,
    {
        let ghost rest = all.skip(i as int);
        assert(rest[0] == all[i as int]);
        assert(rest.skip(1) =~= all.skip(i + 1));
        if entries[i].0 == wanted {
            return Some(entries[i].1.clone());
        }
        i = i + 1;
    }
    assert(all.skip(i as int).len() == 0);
    None
}

/// Whether no platform occurs twice in a list of images by platform.
pub fn has_distinct_platforms(images: &Vec<(String, String)>) -> (r: bool)
    ensures
        r == distinct_keys(pairs_text(images@)),
{
    let ghost all = pairs_text(images@);
    let mut j: usize = 0;
    while j < images.len()
        invariant
            j <= images@.len(),
            all == pairs_text(images@),
            forall|a: int, b: int| 0 <= a < b < j ==> (#[trigger] all[a]).0 != (#[trigger] all[b]).0,
        decreases images@.len() - j,
    {
        let mut i: usize = 0;
        while i < j
            invariant
                i <= j,
                j < images@.len(),
                all == pairs_text(images@),
                forall|a: int| 0 <= a < i ==> (#[trigger] all[a]).0 != all[j as int].0,
            decreases j - i,
        {
            if images[i].0 == images[j].0 {
                assert(all[i as int].0 == all[j as int].0);
                return false;
            }
            i = i + 1;
        }
        j = j + 1;
    }
    true
}

impl Task {
    /// Whether no platform has two entries.
    pub open spec fn wf(&self) -> bool {
        self.images is Some ==> distinct_keys(pairs_text(self.images->0@))
    }

    /// Whether no platform has two entries.
    pub fn has_wf(&self) -> (r: bool)
        ensures
            r == self.wf(),
    {
        match &self.images {
            Some(images) => has_distinct_platforms(images),
            None => true,
        }
    }

    /// Resolves the image for a platform.
    pub fn get_image_for_platform(&self, platform: &str) -> (r: Option<String>)
        ensures
            opt_text(r) == image_for(self@, platform@),
    {
        match &self.images {
            Some(images) => {
                match find_image(images, platform) {
                    Some(image) => Some(image),
                    None => clone_opt(&self.image),
                }
            },
            None => clone_opt(&self.image),
        }
    }

    /// The configuration handed to a node of the given platform.
    pub fn config_for_platform(&self, platform: &str) -> (r: Option<TaskConfig>)
        ensures
            opt_config_view(r) == config_for(self@, platform@),
    {
        match self.get_image_for_platform(platform) {
            Some(image) => Some(
                TaskConfig {
                    task_name: self.name.clone(),
                    image,
                    redis_url: None,
                    input_redis: clone_opt(&self.input_redis),
                    output_redis: clone_opt(&self.output_redis),
                    input_queue: clone_opt(&self.input_queue),
                    output_queue: clone_opt(&self.output_queue),
                },
            ),
            None => None,
        }
    }
}

impl Clone for Task {
    fn clone(&self) -> (r: Self)
        ensures
            r@ == self@,
    {
        Task {
            name: self.name.clone(),
            image: clone_opt(&self.image),
            images: match &self.images {
                Some(m) => Some(clone_pairs(m)),
                None => None,
            },
            input_redis: clone_opt(&self.input_redis),
            output_redis: clone_opt(&self.output_redis),
            input_queue: clone_opt(&self.input_queue),
            output_queue: clone_opt(&self.output_queue),
        }
    }
}

impl Clone for TaskConfig {
    fn clone(&self) -> (r: Self)
        ensures
            r == *self,
    {
        TaskConfig {
            task_name: self.task_name.clone(),
            image: self.image.clone(),
            redis_url: clone_opt(&self.redis_url),
            input_redis: clone_opt(&self.input_redis),
            output_redis: clone_opt(&self.output_redis),
            input_queue: clone_opt(&self.input_queue),
            output_queue: clone_opt(&self.output_queue),
        }
    }
}

} // verus!
