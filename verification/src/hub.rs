//! The hub's state and what each of its requests does to it.
//!
//! The state is one object: the configuration, the task queue and the node
//! registry. Each request is one function from the state and the request to
//! the new state and the response, so that whoever holds the state behind a
//! lock holds it for exactly one such call.

use crate::host::{fresh_node_id, unix_now};
use crate::platform::{default_platform, platform_for_arch, platform_of};
use crate::queue::{names_with, running_name, texts, QueueView, TaskListResponse, TaskQueue};
use crate::registry::{
    heartbeat as heartbeat_model, lists, sweep, Node, NodeRegistry, NodeRuntimeStatus, NodeStatus,
    NodeView, RegistryError,
};
use crate::server_config::ServerConfig;
use crate::task::{config_for, opt_config_view, Task, TaskConfig, TaskConfigView, TaskStatus, TaskView};
use crate::text::{opt_text, pairs_text};
use vstd::prelude::*;
use vstd::string::*;

verus! {

/// The hub's whole state.
#[derive(Debug, PartialEq, Eq)]
pub struct AppStateInner {
    pub config: ServerConfig,
    pub queue: TaskQueue,
    pub registry: NodeRegistry,
}

/// The mathematical content of the hub's state.
pub struct HubView {
    pub bind: Seq<char>,
    pub token: Seq<char>,
    pub queue: QueueView,
    pub registry: Map<Seq<char>, NodeView>,
}

impl View for AppStateInner {
    type V = HubView;

    open spec fn view(&self) -> HubView {
        HubView {
            bind: self.config.bind@,
            token: self.config.token@,
            queue: self.queue@,
            registry: self.registry@,
        }
    }
}

/// A request to append a task.
#[derive(Debug, PartialEq, Eq)]
pub struct CreateTaskRequest {
    pub name: String,
    pub image: Option<String>,
    pub images: Option<Vec<(String, String)>>,
    pub input_redis: Option<String>,
    pub output_redis: Option<String>,
    pub input_queue: Option<String>,
    pub output_queue: Option<String>,
}

/// A node's request to be registered. Without an id the hub assigns one.
#[derive(Debug, PartialEq, Eq)]
pub struct RegisterNodeRequest {
    pub node_id: Option<String>,
    pub hostname: String,
    pub architecture: String,
    pub cpu_count: u32,
}

/// The answer to a registration: the node's id and the current task, if
/// there is one with an image for the node's platform.
#[derive(Debug, PartialEq, Eq)]
pub struct RegisterNodeResponse {
    pub node_id: String,
    pub current_task: Option<TaskConfig>,
}

/// A node's heartbeat.
#[derive(Debug, PartialEq, Eq)]
pub struct HeartbeatRequest {
    pub node_id: String,
    pub status: NodeRuntimeStatus,
    pub active_containers: u32,
}

/// The answer to a heartbeat from a known node.
#[derive(Debug, Clone, Copy, PartialEq, Eq, Structural)]
pub struct HeartbeatResponse {
    pub stop_requested: bool,
}

/// The answer to a successful advance of the queue.
#[derive(Debug, PartialEq, Eq)]
pub struct NextTaskResponse {
    pub previous: String,
    pub current: String,
}

/// Why a request failed. None of these ends the hub.
#[derive(Debug, Clone, Copy, PartialEq, Eq, Structural)]
pub enum ApiError {
    /// The bearer token is missing or wrong.
    Unauthorized,
    /// A heartbeat named a node that is not registered.
    UnknownNode,
    /// The queue has no further task to advance to.
    NoMoreTasks,
}

/// The status code of a task that was appended.
pub const STATUS_CREATED: u16 = 201;

/// The status code of a request that succeeded.
pub const STATUS_OK: u16 = 200;

impl ApiError {
    /// The HTTP status code that the error is answered with.
    pub open spec fn status_code(self) -> u16 {
        match self {
            ApiError::Unauthorized => 401,
            ApiError::UnknownNode => 404,
            ApiError::NoMoreTasks => 400,
        }
    }

    /// The HTTP status code that the error is answered with.
    pub fn status(&self) -> (code: u16)
        ensures
            code == self.status_code(),
    {
        match self {
            ApiError::Unauthorized => 401,
            ApiError::UnknownNode => 404,
            ApiError::NoMoreTasks => 400,
        }
    }

    /// The text that the error is answered with.
    pub fn message(&self) -> (text: &'static str)
        ensures
            text@ == match self {
                ApiError::Unauthorized => "Unauthorized"@,
                ApiError::UnknownNode => "Unknown node"@,
                ApiError::NoMoreTasks => "No more tasks available"@,
            },
    {
        match self {
            ApiError::Unauthorized => "Unauthorized",
            ApiError::UnknownNode => "Unknown node",
            ApiError::NoMoreTasks => "No more tasks available",
        }
    }
}

/// The task that a request to append describes.
pub open spec fn requested_task(req: CreateTaskRequest) -> TaskView {
    TaskView {
        name: req.name@,
        image: opt_text(req.image),
        images: match req.images {
            Some(m) => Some(pairs_text(m@)),
            None => None,
        },
        input_redis: opt_text(req.input_redis),
        output_redis: opt_text(req.output_redis),
        input_queue: opt_text(req.input_queue),
        output_queue: opt_text(req.output_queue),
    }
}

/// The id under which a registration is recorded: the one the node sent,
/// else the one generated for it.
pub open spec fn chosen_id(req: RegisterNodeRequest, generated: Seq<char>) -> Seq<char> {
    match req.node_id {
        Some(id) => id@,
        None => generated,
    }
}

/// The record that a registration writes: online, seen now, with no
/// runtime status, no active unit and no stop request.
pub open spec fn registered_node(req: RegisterNodeRequest, generated: Seq<char>, now: i64) -> NodeView {
    NodeView {
        id: chosen_id(req, generated),
        hostname: req.hostname@,
        architecture: req.architecture@,
        cpu_count: req.cpu_count,
        last_seen: now,
        status: NodeStatus::Online,
        runtime_status: None,
        active_containers: 0,
        stop_requested: false,
    }
}

/// The configuration of the current task for a platform.
pub open spec fn current_config(q: QueueView, platform: Seq<char>) -> Option<TaskConfigView> {
    match q.current_task() {
        Some(t) => config_for(t, platform),
        None => None,
    }
}

/// The platform that a request for the current task is answered for.
pub open spec fn requested_platform(platform: Option<&str>) -> Seq<char> {
    match platform {
        Some(p) => p@,
        None => "linux/amd64"@,
    }
}

/// What a registration does, given the id generated for it and the time.
pub open spec fn registration(
    before: HubView,
    req: RegisterNodeRequest,
    generated: Seq<char>,
    now: i64,
    after: HubView,
    resp: RegisterNodeResponse,
) -> bool {
    &&& after == HubView {
        registry: before.registry.insert(
            chosen_id(req, generated),
            registered_node(req, generated, now),
        ),
        ..before
    }
    &&& resp.node_id@ == chosen_id(req, generated)
    &&& opt_config_view(resp.current_task) == current_config(
        before.queue,
        platform_of(req.architecture@),
    )
}

/// Whether a request carries the expected bearer token.
pub fn authorize(expected_token: &str, header: Option<&str>) -> (r: Result<(), ApiError>)
    ensures
        r is Ok <==> (header is Some && header->0@ == "Bearer "@ + expected_token@),
        r is Err ==> r->Err_0 == ApiError::Unauthorized,
{
    match header {
        Some(value) => {
            let expected = String::from_str("Bearer ").concat(expected_token);
            let given = String::from_str(value);
            if given == expected {
                Ok(())
            } else {
                Err(ApiError::Unauthorized)
            }
        },
        None => Err(ApiError::Unauthorized),
    }
}

/// The body of the health check, which needs no token.
pub fn health_check() -> (body: &'static str)
    ensures
        body@ == "OK"@,
{
    "OK"
}

impl AppStateInner {
    /// The state of a hub that has just started: no task, no node.
    pub fn new(config: ServerConfig) -> (s: Self)
        ensures
            s@ == (HubView {
                bind: config.bind@,
                token: config.token@,
                queue: crate::queue::empty_queue(),
                registry: Map::empty(),
            }),
    {
        AppStateInner { config, queue: TaskQueue::new(), registry: NodeRegistry::new() }
    }

    /// The current task, if there is one.
    pub fn get_current_task(&self) -> (r: Option<&Task>)
        ensures
            match r {
                Some(t) => self@.queue.current_task() == Some(t@),
                None => self@.queue.current_task() is None,
            },
    {
        self.queue.get_current_task()
    }

    /// Appends a task to the queue as pending.
    pub fn add_task(&mut self, task: Task)
        ensures
            final(self)@ == (HubView { queue: old(self)@.queue.appended(task@), ..old(self)@ }),
    {
        self.queue.add_task(task);
    }

    /// Advances the queue to the next task.
    ///
    /// The result holds the name of the task left ("none" before the first
    /// advance) and the name of the task reached; it is none, and nothing
    /// changes, where no task is left.
    pub fn next_task(&mut self) -> (r: Option<(String, String)>)
        ensures
            final(self)@ == (HubView { queue: old(self)@.queue.advanced(), ..old(self)@ }),
            match r {
                Some((previous, current)) => {
                    &&& !old(self)@.queue.exhausted()
                    &&& previous@ == old(self)@.queue.previous_name()
                    &&& current@ == old(self)@.queue.tasks[old(self)@.queue.next_index()].0.name
                },
                None => old(self)@.queue.exhausted(),
            },
    {
        self.queue.next_task()
    }

    /// Registers a node, replacing any record with the same id as a whole.
    pub fn register_node(&mut self, node: Node)
        ensures
            final(self)@ == (HubView {
                registry: old(self)@.registry.insert(node.id@, node@),
                ..old(self)@
            }),
    {
        self.registry.register_node(node);
    }

    /// Records a heartbeat received at time `now`; see
    /// [`NodeRegistry::update_heartbeat_at`].
    pub fn update_heartbeat_at(
        &mut self,
        node_id: &str,
        runtime_status: NodeRuntimeStatus,
        active_containers: u32,
        now: i64,
    ) -> (r: Result<bool, RegistryError>)
        ensures
            final(self)@ == (HubView {
                registry: heartbeat_model(
                    old(self)@.registry,
                    node_id@,
                    runtime_status,
                    active_containers,
                    now,
                ),
                ..old(self)@
            }),
            match r {
                Ok(stop) => old(self)@.registry.contains_key(node_id@) && stop == old(
                    self,
                )@.registry[node_id@].stop_requested,
                Err(e) => !old(self)@.registry.contains_key(node_id@) && e
                    == RegistryError::UnknownNode,
            },
    {
        self.registry.update_heartbeat_at(node_id, runtime_status, active_containers, now)
    }

    /// Records a heartbeat received now. The time is read from the system
    /// clock, so the contract says what holds whatever the clock showed.
    pub fn update_heartbeat(
        &mut self,
        node_id: &str,
        runtime_status: NodeRuntimeStatus,
        active_containers: u32,
    ) -> (r: Result<bool, RegistryError>)
        ensures
            exists|now: i64|
                final(self)@ == (HubView {
                    registry: #[trigger] heartbeat_model(
                        old(self)@.registry,
                        node_id@,
                        runtime_status,
                        active_containers,
                        now,
                    ),
                    ..old(self)@
                }),
            match r {
                Ok(stop) => old(self)@.registry.contains_key(node_id@) && stop == old(
                    self,
                )@.registry[node_id@].stop_requested,
                Err(e) => !old(self)@.registry.contains_key(node_id@) && e
                    == RegistryError::UnknownNode && final(self)@ == old(self)@,
            },
    {
        let now = unix_now();
        self.update_heartbeat_at(node_id, runtime_status, active_containers, now)
    }

    /// Removes the nodes that are stale at time `now` and returns how many
    /// were removed.
    pub fn cleanup_offline_nodes_at(&mut self, timeout_secs: i64, now: i64) -> (removed: usize)
        ensures
            final(self)@ == (HubView {
                registry: sweep(old(self)@.registry, timeout_secs as int, now as int),
                ..old(self)@
            }),
            removed == old(self)@.registry.len() - final(self)@.registry.len(),
    {
        self.registry.cleanup_offline_nodes_at(timeout_secs, now)
    }

    /// Removes the nodes that are stale now and returns how many were
    /// removed. The time is read from the system clock, so the contract says
    /// what holds whatever the clock showed.
    pub fn cleanup_offline_nodes(&mut self, timeout_secs: i64) -> (removed: usize)
        ensures
            exists|now: int|
                final(self)@ == (HubView {
                    registry: #[trigger] sweep(old(self)@.registry, timeout_secs as int, now),
                    ..old(self)@
                }),
            removed == old(self)@.registry.len() - final(self)@.registry.len(),
    {
        let now = unix_now();
        let removed = self.cleanup_offline_nodes_at(timeout_secs, now);
        assert(final(self)@ == (HubView {
            registry: sweep(old(self)@.registry, timeout_secs as int, now as int),
            ..old(self)@
        }));
        removed
    }
}

/// Appends the task that the request describes; answered with 201.
pub fn create_task(state: &mut AppStateInner, req: CreateTaskRequest) -> (status: u16)
    ensures
        status == STATUS_CREATED,
        final(state)@ == (HubView {
            queue: old(state)@.queue.appended(requested_task(req)),
            ..old(state)@
        }),
{
    let task = Task {
        name: req.name,
        image: req.image,
        images: req.images,
        input_redis: req.input_redis,
        output_redis: req.output_redis,
        input_queue: req.input_queue,
        output_queue: req.output_queue,
    };
    state.add_task(task);
    STATUS_CREATED
}

/// Lists the names of the tasks by status.
pub fn list_tasks(state: &AppStateInner) -> (r: TaskListResponse)
    ensures
        opt_text(r.current) == running_name(state@.queue.tasks),
        texts(r.pending@) == names_with(state@.queue.tasks, TaskStatus::Pending),
        texts(r.completed@) == names_with(state@.queue.tasks, TaskStatus::Completed),
{
    state.queue.list()
}

/// Advances the queue; an exhausted queue is a client error and nothing
/// changes.
pub fn next_task(state: &mut AppStateInner) -> (r: Result<NextTaskResponse, ApiError>)
    ensures
        final(state)@ == (HubView { queue: old(state)@.queue.advanced(), ..old(state)@ }),
        match r {
            Ok(resp) => {
                &&& !old(state)@.queue.exhausted()
                &&& resp.previous@ == old(state)@.queue.previous_name()
                &&& resp.current@ == old(state)@.queue.tasks[old(state)@.queue.next_index()].0.name
            },
            Err(e) => old(state)@.queue.exhausted() && e == ApiError::NoMoreTasks && final(state)@
                == old(state)@,
        },
{
    match state.next_task() {
        Some((previous, current)) => Ok(NextTaskResponse { previous, current }),
        None => Err(ApiError::NoMoreTasks),
    }
}

/// Lists the registered nodes.
pub fn list_nodes(state: &AppStateInner) -> (r: Vec<Node>)
    ensures
        lists(r@, state@.registry),
{
    state.registry.list()
}

/// Registers a node under the id it sent, or under `generated` where it
/// sent none, as seen at time `now`, and answers with the current task for
/// the node's platform.
pub fn register_node_with(
    state: &mut AppStateInner,
    req: RegisterNodeRequest,
    generated: String,
    now: i64,
) -> (resp: RegisterNodeResponse)
    ensures
        registration(old(state)@, req, generated@, now, final(state)@, resp),
{
    let platform = platform_for_arch(req.architecture.as_str());
    let node_id = match &req.node_id {
        Some(id) => id.clone(),
        None => generated,
    };
    let node = Node {
        id: node_id.clone(),
        hostname: req.hostname,
        architecture: req.architecture,
        cpu_count: req.cpu_count,
        last_seen: now,
        status: NodeStatus::Online,
        runtime_status: None,
        active_containers: 0,
        stop_requested: false,
    };
    state.register_node(node);
    let current_task = match state.get_current_task() {
        Some(task) => task.config_for_platform(platform),
        None => None,
    };
    RegisterNodeResponse { node_id, current_task }
}

/// Registers a node now. A node that sent no id gets a new random one.
///
/// The id and the time come from outside, so the contract says what holds
/// whatever they were; a node that sent an id keeps it.
pub fn register_node(state: &mut AppStateInner, req: RegisterNodeRequest) -> (resp:
    RegisterNodeResponse)
    ensures
        exists|generated: Seq<char>, now: i64| #[trigger]
            registration(old(state)@, req, generated, now, final(state)@, resp),
        req.node_id is Some ==> resp.node_id@ == req.node_id->0@,
{
    let now = unix_now();
    match &req.node_id {
        Some(_) => {
            let resp = register_node_with(state, req, String::new(), now);
            assert(registration(old(state)@, req, Seq::<char>::empty(), now, final(state)@, resp));
            resp
        },
        None => {
            let generated = fresh_node_id();
            let ghost g = generated@;
            let resp = register_node_with(state, req, generated, now);
            assert(registration(old(state)@, req, g, now, final(state)@, resp));
            resp
        },
    }
}

/// Records a heartbeat received at time `now`: 404 for an unknown node,
/// else the stop request standing for the node.
pub fn heartbeat_at(state: &mut AppStateInner, req: &HeartbeatRequest, now: i64) -> (r: Result<
    HeartbeatResponse,
    ApiError,
>)
    ensures
        final(state)@ == (HubView {
            registry: heartbeat_model(
                old(state)@.registry,
                req.node_id@,
                req.status,
                req.active_containers,
                now,
            ),
            ..old(state)@
        }),
        match r {
            Ok(resp) => old(state)@.registry.contains_key(req.node_id@) && resp.stop_requested
                == old(state)@.registry[req.node_id@].stop_requested,
            Err(e) => !old(state)@.registry.contains_key(req.node_id@) && e == ApiError::UnknownNode
                && final(state)@ == old(state)@,
        },
{
    match state.update_heartbeat_at(req.node_id.as_str(), req.status, req.active_containers, now) {
        Ok(stop_requested) => Ok(HeartbeatResponse { stop_requested }),
        Err(_) => Err(ApiError::UnknownNode),
    }
}

/// Records a heartbeat received now. The time is read from the system
/// clock, so the contract says what holds whatever the clock showed.
pub fn heartbeat(state: &mut AppStateInner, req: &HeartbeatRequest) -> (r: Result<
    HeartbeatResponse,
    ApiError,
>)
    ensures
        exists|now: i64|
            final(state)@ == (HubView {
                registry: #[trigger] heartbeat_model(
                    old(state)@.registry,
                    req.node_id@,
                    req.status,
                    req.active_containers,
                    now,
                ),
                ..old(state)@
            }),
        match r {
            Ok(resp) => old(state)@.registry.contains_key(req.node_id@) && resp.stop_requested
                == old(state)@.registry[req.node_id@].stop_requested,
            Err(e) => !old(state)@.registry.contains_key(req.node_id@) && e == ApiError::UnknownNode
                && final(state)@ == old(state)@,
        },
{
    let now = unix_now();
    heartbeat_at(state, req, now)
}

/// The current task as configured for a platform; the default platform
/// where the request names none.
pub fn get_current_task(state: &AppStateInner, platform: Option<&str>) -> (r: Option<TaskConfig>)
    ensures
        opt_config_view(r) == current_config(state@.queue, requested_platform(platform)),
{
    let wanted = match platform {
        Some(p) => p,
        None => default_platform(),
    };
    match state.get_current_task() {
        Some(task) => task.config_for_platform(wanted),
        None => None,
    }
}

} // verus!
