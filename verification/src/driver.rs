//! The decisions around the container runtime.
//!
//! The runtime itself is reached from outside this library. What is decided
//! here is what a unit is created with, and what each answer of the runtime
//! means: which failures are none (a unit that is already gone when it is
//! stopped or removed), which can be mended (a name that is taken), and
//! which end the work.

use crate::slot::{StartRequest, UnitPoll};
use crate::text::{begins_with, contains, mentions, pairs_text, render_unsigned, starts_with};
use vstd::prelude::*;
use vstd::string::*;

verus! {

/// The socket that is tried when the runtime's default address fails.
pub const UNIX_SOCKET: &'static str = "/var/run/docker.sock";

/// Seconds after which a request to the runtime over that socket times out.
pub const SOCKET_TIMEOUT_SECS: u64 = 120;

/// The number of processors that a unit may use.
pub const UNIT_CPU_COUNT: i64 = 1;

/// Bytes in a megabyte.
pub const BYTES_PER_MB: u64 = 1048576;

/// Why the runtime could not do what was asked.
#[derive(Debug, PartialEq, Eq)]
pub enum DriverError {
    /// The runtime refused the connection for want of permission.
    PermissionDenied(String),
    /// The runtime could not be reached; holds the first failure's message.
    Unavailable(String),
    /// The image could not be pulled.
    PullFailed { image: String, message: String },
    /// The runtime stopped reporting on a unit before the unit had ended.
    WaitEnded,
    /// The unit's memory limit does not fit the runtime's counter of bytes.
    MemoryLimitTooLarge,
    /// Any other failure, with the runtime's message.
    Runtime(String),
}

/// The mathematical content of a [`DriverError`].
pub enum DriverErrorView {
    PermissionDenied(Seq<char>),
    Unavailable(Seq<char>),
    PullFailed { image: Seq<char>, message: Seq<char> },
    WaitEnded,
    MemoryLimitTooLarge,
    Runtime(Seq<char>),
}

impl View for DriverError {
    type V = DriverErrorView;

    open spec fn view(&self) -> DriverErrorView {
        match self {
            DriverError::PermissionDenied(m) => DriverErrorView::PermissionDenied(m@),
            DriverError::Unavailable(m) => DriverErrorView::Unavailable(m@),
            DriverError::PullFailed { image, message } => DriverErrorView::PullFailed {
                image: image@,
                message: message@,
            },
            DriverError::WaitEnded => DriverErrorView::WaitEnded,
            DriverError::MemoryLimitTooLarge => DriverErrorView::MemoryLimitTooLarge,
            DriverError::Runtime(m) => DriverErrorView::Runtime(m@),
        }
    }
}

/// The text of an error.
pub open spec fn error_text(e: DriverErrorView) -> Seq<char> {
    match e {
        DriverErrorView::PermissionDenied(m) => "Docker permission denied: "@ + m,
        DriverErrorView::Unavailable(_) => "Docker not available"@,
        DriverErrorView::PullFailed { image, message } => "Failed to pull image '"@ + image + "': "@
            + message,
        DriverErrorView::WaitEnded => "Wait stream ended unexpectedly"@,
        DriverErrorView::MemoryLimitTooLarge => "Memory limit too large"@,
        DriverErrorView::Runtime(m) => m,
    }
}

impl DriverError {
    /// The text of the error.
    pub fn message(&self) -> (text: String)
        ensures
            text@ == error_text(self@),
    {
        match self {
            DriverError::PermissionDenied(m) => String::from_str("Docker permission denied: ").concat(
                m.as_str(),
            ),
            DriverError::Unavailable(_) => String::from_str("Docker not available"),
            DriverError::PullFailed { image, message } => String::from_str(
                "Failed to pull image '",
            ).concat(image.as_str()).concat("': ").concat(message.as_str()),
            DriverError::WaitEnded => String::from_str("Wait stream ended unexpectedly"),
            DriverError::MemoryLimitTooLarge => String::from_str("Memory limit too large"),
            DriverError::Runtime(m) => m.clone(),
        }
    }
}

/// What follows a failure to connect.
#[derive(Debug, PartialEq, Eq)]
pub enum ConnectStep {
    /// Try the runtime's socket at `path`.
    TrySocket { path: &'static str, timeout_secs: u64 },
    /// Give up with this error.
    Fail(DriverError),
}

/// Whether a message of the runtime says that permission is wanting.
pub open spec fn says_denied(message: Seq<char>) -> bool {
    mentions(message, "permission denied"@)
}

/// What follows when the runtime's default address cannot be connected to:
/// want of permission ends the attempt, anything else is followed by a try
/// of the runtime's socket.
pub fn after_default_connect_failure(message: String) -> (step: ConnectStep)
    ensures
        match step {
            ConnectStep::Fail(e) => says_denied(message@) && e@ == DriverErrorView::PermissionDenied(
                message@,
            ),
            ConnectStep::TrySocket { path, timeout_secs } => !says_denied(message@) && path@
                == UNIX_SOCKET@ && timeout_secs == SOCKET_TIMEOUT_SECS,
        },
{
    if contains(message.as_str(), "permission denied") {
        ConnectStep::Fail(DriverError::PermissionDenied(message))
    } else {
        ConnectStep::TrySocket { path: UNIX_SOCKET, timeout_secs: SOCKET_TIMEOUT_SECS }
    }
}

/// The error of an attempt to connect whose second try, of the socket, has
/// failed too: want of permission, or else the runtime is not there, which
/// is told with the first failure's message.
pub fn after_socket_connect_failure(first_message: String, message: String) -> (e: DriverError)
    ensures
        e@ == if says_denied(message@) {
            DriverErrorView::PermissionDenied(message@)
        } else {
            DriverErrorView::Unavailable(first_message@)
        },
{
    if contains(message.as_str(), "permission denied") {
        DriverError::PermissionDenied(message)
    } else {
        DriverError::Unavailable(first_message)
    }
}

/// The name of the unit of a task in a slot of a node.
pub open spec fn unit_name(task_name: Seq<char>, node_id: Seq<char>, slot: u32) -> Seq<char> {
    "idm-"@ + task_name + "-"@ + node_id + "-"@ + crate::text::decimal_digits(slot as nat)
}

/// The name of the unit of a task in a slot of a node.
pub fn container_name(task_name: &str, node_id: &str, slot: u32) -> (name: String)
    ensures
        name@ == unit_name(task_name@, node_id@, slot),
{
    String::from_str("idm-").concat(task_name).concat("-").concat(node_id).concat("-").concat(
        render_unsigned(slot as u64).as_str(),
    )
}

/// The lines that stand for an environment: each variable as "NAME=value".
pub open spec fn env_text(env: Seq<(Seq<char>, Seq<char>)>) -> Seq<Seq<char>> {
    Seq::new(env.len(), |i: int| env[i].0 + "="@ + env[i].1)
}

/// The characters of each line.
pub open spec fn lines_text(lines: Seq<String>) -> Seq<Seq<char>> {
    Seq::new(lines.len(), |i: int| lines[i]@)
}

/// Renders an environment as lines.
pub fn env_lines(env: &Vec<(String, String)>) -> (lines: Vec<String>)
    ensures
        lines_text(lines@) == env_text(pairs_text(env@)),
{
    let mut lines: Vec<String> = Vec::new();
    let mut i: usize = 0;
    while i < env.len()
        invariant
            i <= env@.len(),
            lines@.len() == i,
            forall|k: int|
                0 <= k < i ==> (#[trigger] lines@[k])@ == env@[k].0@ + "="@ + env@[k].1@,
        decreases env@.len() - i,
    {
        let line = env[i].0.clone().concat("=").concat(env[i].1.as_str());
        lines.push(line);
        i = i + 1;
    }
    assert(lines_text(lines@) =~= env_text(pairs_text(env@)));
    lines
}

/// A memory limit in bytes, where it fits.
pub fn memory_limit_bytes(memory_mb: u64) -> (bytes: Option<i64>)
    ensures
        match bytes {
            Some(b) => b == memory_mb * BYTES_PER_MB,
            None => memory_mb * BYTES_PER_MB > i64::MAX,
        },
{
    if memory_mb <= 8796093022207 {
        Some((memory_mb * BYTES_PER_MB) as i64)
    } else {
        None
    }
}

/// The grace period handed to the runtime: the configured seconds, or the
/// most that the runtime's counter holds.
pub fn grace_seconds(timeout_secs: u64) -> (t: i64)
    ensures
        t == if timeout_secs <= i64::MAX {
            timeout_secs as int
        } else {
            i64::MAX as int
        },
{
    if timeout_secs <= 9223372036854775807 {
        timeout_secs as i64
    } else {
        9223372036854775807
    }
}

/// What a unit is created with.
#[derive(Debug, PartialEq, Eq)]
pub struct UnitSpec {
    pub name: String,
    pub image: String,
    pub env: Vec<String>,
    pub cpu_count: i64,
    pub memory_bytes: i64,
    pub platform: String,
}

/// Plans the creation of a unit for a request of a slot.
pub fn plan_unit(req: &StartRequest, platform: &str) -> (r: Result<UnitSpec, DriverError>)
    ensures
        match r {
            Ok(spec) => {
                &&& spec.name@ == unit_name(req@.task_name, req@.node_id, req@.slot)
                &&& spec.image@ == req@.image
                &&& lines_text(spec.env@) == env_text(req@.env)
                &&& spec.cpu_count == UNIT_CPU_COUNT
                &&& spec.memory_bytes == req.memory_mb * BYTES_PER_MB
                &&& spec.platform@ == platform@
            },
            Err(e) => req.memory_mb * BYTES_PER_MB > i64::MAX && e@
                == DriverErrorView::MemoryLimitTooLarge,
        },
{
    match memory_limit_bytes(req.memory_mb) {
        Some(memory_bytes) => Ok(
            UnitSpec {
                name: container_name(req.task_name.as_str(), req.node_id.as_str(), req.slot),
                image: req.image.clone(),
                env: env_lines(&req.env),
                cpu_count: UNIT_CPU_COUNT,
                memory_bytes,
                platform: String::from_str(platform),
            },
        ),
        None => Err(DriverError::MemoryLimitTooLarge),
    }
}

/// What follows a failure to create a unit.
#[derive(Debug, Clone, Copy, PartialEq, Eq, Structural)]
pub enum CreateRecovery {
    /// The name is taken: remove the unit that has it, then create again.
    RemoveAndRetry,
    /// The failure stands.
    Fail,
}

/// Decides what follows a failure to create a unit: a name that is taken is
/// made free once; a second failure stands, as does any other.
pub fn after_create_failure(message: &str, already_retried: bool) -> (r: CreateRecovery)
    ensures
        r == if !already_retried && mentions(message@, "Conflict"@) {
            CreateRecovery::RemoveAndRetry
        } else {
            CreateRecovery::Fail
        },
{
    if !already_retried && contains(message, "Conflict") {
        CreateRecovery::RemoveAndRetry
    } else {
        CreateRecovery::Fail
    }
}

/// What the runtime's report on a unit means: its exit code, or that the
/// wait failed, or that the report ended without a word on the unit.
pub fn wait_outcome(first: Option<Result<i64, String>>) -> (r: Result<i64, DriverError>)
    ensures
        match first {
            Some(Ok(code)) => r == Ok::<i64, DriverError>(code),
            Some(Err(m)) => r is Err && r->Err_0@ == DriverErrorView::Runtime(m@),
            None => r is Err && r->Err_0@ == DriverErrorView::WaitEnded,
        },
{
    match first {
        Some(Ok(code)) => Ok(code),
        Some(Err(m)) => Err(DriverError::Runtime(m)),
        None => Err(DriverError::WaitEnded),
    }
}

/// What a bounded wait for a unit found: nothing within its time, an exit
/// code, or a failure.
pub fn poll_outcome(waited: Option<Result<i64, DriverError>>) -> (r: UnitPoll)
    ensures
        r == match waited {
            None => UnitPoll::StillRunning,
            Some(Ok(code)) => UnitPoll::Exited(code),
            Some(Err(_)) => UnitPoll::WaitFailed,
        },
{
    match waited {
        None => UnitPoll::StillRunning,
        Some(Ok(code)) => UnitPoll::Exited(code),
        Some(Err(_)) => UnitPoll::WaitFailed,
    }
}

/// Whether a message of the runtime says that the unit is not there.
pub open spec fn says_absent(message: Seq<char>) -> bool {
    mentions(message, "No such container"@) || mentions(message, "not found"@)
}

/// Whether a message of the runtime says that the unit is not there.
pub fn names_absent_unit(message: &str) -> (r: bool)
    ensures
        r == says_absent(message@),
{
    contains(message, "No such container") || contains(message, "not found")
}

/// What an attempt to stop or to remove a unit comes to. A unit that is
/// already gone is what was wanted: that is success, not an error. Any
/// other failure stands.
pub fn settle_absent(outcome: Result<(), String>) -> (r: Result<(), DriverError>)
    ensures
        match outcome {
            Ok(_) => r is Ok,
            Err(m) => if says_absent(m@) {
                r is Ok
            } else {
                r is Err && r->Err_0@ == DriverErrorView::Runtime(m@)
            },
        },
{
    match outcome {
        Ok(_) => Ok(()),
        Err(m) => {
            if names_absent_unit(m.as_str()) {
                Ok(())
            } else {
                Err(DriverError::Runtime(m))
            }
        },
    }
}

/// Whether a message that came up during a pull ends the pull: the image
/// is not there, or may not be had. Anything else may be a passing fault
/// of the network.
pub open spec fn is_fatal(message: Seq<char>) -> bool {
    mentions(message, "not found"@) || mentions(message, "pull access denied"@) || mentions(
        message,
        "permission denied"@,
    )
}

/// Whether a message that came up during a pull ends the pull.
pub fn is_fatal_pull_error(message: &str) -> (r: bool)
    ensures
        r == is_fatal(message@),
{
    contains(message, "not found") || contains(message, "pull access denied") || contains(
        message,
        "permission denied",
    )
}

/// The last of the messages that ends a pull.
pub open spec fn last_fatal(messages: Seq<Seq<char>>) -> Option<Seq<char>>
    decreases messages.len(),
{
    if messages.len() == 0 {
        None
    } else if is_fatal(messages.last()) {
        Some(messages.last())
    } else {
        last_fatal(messages.drop_last())
    }
}

/// What a pull comes to, given the messages of the failures that came up
/// while it ran: an error with the last message that ends a pull, else
/// success.
pub fn pull_outcome(image: &str, messages: &Vec<String>) -> (r: Result<(), DriverError>)
    ensures
        match last_fatal(lines_text(messages@)) {
            Some(m) => r is Err && r->Err_0@ == (DriverErrorView::PullFailed {
                image: image@,
                message: m,
            }),
            None => r is Ok,
        },
{
    let ghost all = lines_text(messages@);
    let mut found: Option<String> = None;
    let mut i: usize = 0;
    while i < messages.len()
        invariant
            i <= messages@.len(),
            all == lines_text(messages@),
            crate::text::opt_text(found) == last_fatal(all.take(i as int)),
        decreases messages@.len() - i,
    {
        let ghost upto = all.take(i + 1);
        assert(upto.drop_last() =~= all.take(i as int));
        assert(upto.last() == all[i as int]);
        if is_fatal_pull_error(messages[i].as_str()) {
            found = Some(messages[i].clone());
        }
        i = i + 1;
    }
    assert(all.take(i as int) =~= all);
    match found {
        Some(message) => Err(DriverError::PullFailed { image: String::from_str(image), message }),
        None => Ok(()),
    }
}

/// Whether a tag names an image: it is the image's name, or the image's
/// name followed by a colon and a version.
pub open spec fn tag_names(tag: Seq<char>, image: Seq<char>) -> bool {
    tag == image || begins_with(tag, image + ":"@)
}

/// Whether one of the tags names the image.
pub open spec fn some_tag_names(tags: Seq<Seq<char>>, image: Seq<char>) -> bool {
    exists|i: int| 0 <= i < tags.len() && tag_names(#[trigger] tags[i], image)
}

/// Whether one of the tags names the image.
pub fn tags_name_image(tags: &Vec<String>, image: &str) -> (r: bool)
    ensures
        r == some_tag_names(lines_text(tags@), image@),
{
    let wanted = String::from_str(image);
    let prefix = String::from_str(image).concat(":");
    let ghost all = lines_text(tags@);
    let mut i: usize = 0;
    while i < tags.len()
        invariant
            i <= tags@.len(),
            all == lines_text(tags@),
            wanted@ == image@,
            prefix@ == image@ + ":"@,
            forall|k: int| 0 <= k < i ==> !tag_names(#[trigger] all[k], image@),
        decreases tags@.len() - i,
    {
        if tags[i] == wanted || starts_with(tags[i].as_str(), prefix.as_str()) {
            assert(tag_names(all[i as int], image@));
            return true;
        }
        i = i + 1;
    }
    false
}

/// Whether the image is among the images that the runtime holds, each
/// given by its tags.
pub fn image_present(images: &Vec<Vec<String>>, image: &str) -> (r: bool)
    ensures
        r == exists|i: int|
            0 <= i < images@.len() && some_tag_names(lines_text((#[trigger] images@[i])@), image@),
{
    let mut i: usize = 0;
    while i < images.len()
        invariant
            i <= images@.len(),
            forall|k: int|
                0 <= k < i ==> !some_tag_names(lines_text((#[trigger] images@[k])@), image@),
        decreases images@.len() - i,
    {
        if tags_name_image(&images[i], image) {
            return true;
        }
        i = i + 1;
    }
    false
}

/// What the runtime tells of a unit it holds.
#[derive(Debug, PartialEq, Eq)]
pub struct UnitSummary {
    pub id: Option<String>,
    pub names: Option<Vec<String>>,
    pub state: Option<String>,
}

/// Whether one of the names is that of a unit of this grid.
pub open spec fn some_name_is_ours(names: Seq<Seq<char>>) -> bool {
    exists|i: int| 0 <= i < names.len() && begins_with(#[trigger] names[i], "/idm-"@)
}

/// Whether a unit is one of this grid's that has ended, and can be named
/// for removal.
pub open spec fn is_leftover(unit: UnitSummary) -> bool {
    &&& unit.id is Some
    &&& unit.state is Some && unit.state->0@ == "exited"@
    &&& unit.names is Some && some_name_is_ours(lines_text(unit.names->0@))
}

/// The ids of the leftover units, in the order given.
pub open spec fn leftover_ids(units: Seq<UnitSummary>) -> Seq<Seq<char>>
    decreases units.len(),
{
    if units.len() == 0 {
        Seq::empty()
    } else if is_leftover(units.last()) {
        leftover_ids(units.drop_last()).push(units.last().id->0@)
    } else {
        leftover_ids(units.drop_last())
    }
}

fn named_ours(names: &Vec<String>) -> (r: bool)
    ensures
        r == some_name_is_ours(lines_text(names@)),
{
    let ghost all = lines_text(names@);
    let mut i: usize = 0;
    while i < names.len()
        invariant
            i <= names@.len(),
            all == lines_text(names@),
            forall|k: int| 0 <= k < i ==> !begins_with(#[trigger] all[k], "/idm-"@),
        decreases names@.len() - i,
    {
        if starts_with(names[i].as_str(), "/idm-") {
            assert(begins_with(all[i as int], "/idm-"@));
            return true;
        }
        i = i + 1;
    }
    false
}

fn leftover(unit: &UnitSummary) -> (r: bool)
    ensures
        r == is_leftover(*unit),
{
    let exited = match &unit.state {
        Some(state) => *state == String::from_str("exited"),
        None => false,
    };
    let ours = match &unit.names {
        Some(names) => named_ours(names),
        None => false,
    };
    unit.id.is_some() && exited && ours
}

/// The ids of the units of this grid that have ended and may be removed.
pub fn stopped_units(units: &Vec<UnitSummary>) -> (ids: Vec<String>)
    ensures
        lines_text(ids@) == leftover_ids(units@),
{
    let mut ids: Vec<String> = Vec::new();
    let mut i: usize = 0;
    while i < units.len()
        invariant
            i <= units@.len(),
            lines_text(ids@) == leftover_ids(units@.take(i as int)),
        decreases units@.len() - i,
    {
        let ghost upto = units@.take(i + 1);
        assert(upto.drop_last() =~= units@.take(i as int));
        assert(upto.last() == units@[i as int]);
        if leftover(&units[i]) {
            match &units[i].id {
                Some(id) => {
                    ids.push(id.clone());
                    assert(lines_text(ids@) =~= leftover_ids(upto));
                },
                None => {},
            }
        }
        i = i + 1;
    }
    assert(units@.take(i as int) =~= units@);
    ids
}

} // verus!
