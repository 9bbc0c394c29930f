//! The node's side of its conversation with the hub: where each request
//! goes, what it carries, and what the hub's answer means.
//!
//! Sending and receiving is done outside this library. A request is
//! described here by its address and its bearer token; an answer arrives
//! here as a status code and, where there is one, a body that was read.

use crate::feed::FeedPoll;
use crate::liveness::HeartbeatOutcome;
use crate::node_config::GridNodeConfig;
use crate::task::TaskConfig;
use vstd::prelude::*;
use vstd::string::*;

pub use crate::hub::HeartbeatRequest;
pub use crate::registry::NodeRuntimeStatus;

verus! {

/// Where the hub is, and how the node speaks to it.
#[derive(Debug, PartialEq, Eq)]
pub struct HubEndpoint {
    pub base_url: String,
    pub token: String,
    /// The node's platform, for which the hub resolves the task's image.
    pub platform: String,
}

/// What a node sends to be registered.
#[derive(Debug, PartialEq, Eq)]
pub struct RegisterRequest {
    /// The id that the node was given before, if it was.
    pub node_id: Option<String>,
    pub hostname: String,
    pub architecture: String,
    pub cpu_count: u32,
}

/// What the hub answers to a registration.
#[derive(Debug, PartialEq, Eq)]
pub struct RegisterResponse {
    pub node_id: String,
    pub current_task: Option<TaskConfig>,
}

/// Why a request to the hub failed.
#[derive(Debug, PartialEq, Eq)]
pub enum ClientError {
    /// The hub could not be reached, or its answer could not be read.
    Transport(String),
    /// The hub answered with a status that is no success.
    Rejected { status: u16, body: String },
}

/// Whether a status code reports success.
pub open spec fn success(status: u16) -> bool {
    200 <= status < 300
}

/// Whether a status code reports success.
pub fn is_success(status: u16) -> (r: bool)
    ensures
        r == success(status),
{
    200 <= status && status < 300
}

impl HubEndpoint {
    /// The endpoint of the hub at `base_url`.
    pub fn new(base_url: String, token: String, platform: String) -> (e: Self)
        ensures
            e.base_url == base_url,
            e.token == token,
            e.platform == platform,
    {
        HubEndpoint { base_url, token, platform }
    }

    /// The address that registrations are sent to.
    pub fn register_url(&self) -> (url: String)
        ensures
            url@ == self.base_url@ + "/gridnode/register"@,
    {
        self.base_url.clone().concat("/gridnode/register")
    }

    /// The address that heartbeats are sent to.
    pub fn heartbeat_url(&self) -> (url: String)
        ensures
            url@ == self.base_url@ + "/gridnode/heartbeat"@,
    {
        self.base_url.clone().concat("/gridnode/heartbeat")
    }

    /// The address that the current task is asked of, for this node's
    /// platform.
    pub fn task_url(&self) -> (url: String)
        ensures
            url@ == self.base_url@ + "/gridnode/task?platform="@ + self.platform@,
    {
        self.base_url.clone().concat("/gridnode/task?platform=").concat(self.platform.as_str())
    }

    /// The value of the authorization header of every request.
    pub fn authorization(&self) -> (value: String)
        ensures
            value@ == "Bearer "@ + self.token@,
    {
        String::from_str("Bearer ").concat(self.token.as_str())
    }
}

/// The heartbeat of a node.
pub fn heartbeat_request(node_id: &str, status: NodeRuntimeStatus, active_containers: u32) -> (r:
    HeartbeatRequest)
    ensures
        r.node_id@ == node_id@,
        r.status == status,
        r.active_containers == active_containers,
{
    HeartbeatRequest { node_id: String::from_str(node_id), status, active_containers }
}

/// The text of an error.
pub open spec fn error_text(e: ClientError) -> Seq<char> {
    match e {
        ClientError::Transport(m) => m@,
        ClientError::Rejected { status, body } => "Hub answered "@ + crate::text::decimal_digits(
            status as nat,
        ) + ": "@ + body@,
    }
}

impl ClientError {
    /// The text of the error.
    pub fn message(&self) -> (text: String)
        ensures
            text@ == error_text(*self),
    {
        match self {
            ClientError::Transport(m) => m.clone(),
            ClientError::Rejected { status, body } => String::from_str("Hub answered ").concat(
                crate::text::render_unsigned(*status as u64).as_str(),
            ).concat(": ").concat(body.as_str()),
        }
    }
}

/// Tells an answer that reports success from a rejection: the body is
/// handed on where the status reports success, else it is the text of the
/// rejection.
pub fn check_status(status: u16, body: String) -> (r: Result<String, ClientError>)
    ensures
        match r {
            Ok(text) => success(status) && text == body,
            Err(e) => !success(status) && e == (ClientError::Rejected { status, body }),
        },
{
    if is_success(status) {
        Ok(body)
    } else {
        Err(ClientError::Rejected { status, body })
    }
}

/// What the hub's answer to a heartbeat means. `answer` is the status code
/// and the stop request that was read from the body, or none where the hub
/// could not be reached. A body without a stop request asks for no stop.
pub fn heartbeat_outcome(answer: Option<(u16, Option<bool>)>) -> (r: HeartbeatOutcome)
    ensures
        r == match answer {
            None => HeartbeatOutcome::Unreachable,
            Some((status, stop)) => if success(status) {
                HeartbeatOutcome::Acknowledged {
                    stop_requested: match stop {
                        Some(s) => s,
                        None => false,
                    },
                }
            } else {
                HeartbeatOutcome::Rejected
            },
        },
{
    match answer {
        None => HeartbeatOutcome::Unreachable,
        Some((status, stop)) => {
            if is_success(status) {
                HeartbeatOutcome::Acknowledged {
                    stop_requested: match stop {
                        Some(s) => s,
                        None => false,
                    },
                }
            } else {
                HeartbeatOutcome::Rejected
            }
        },
    }
}

/// What the hub's answer to a question for the current task means. `answer`
/// is the status code and the task that was read from the body, or none
/// where the hub could not be reached or its answer could not be read.
pub fn task_poll(answer: Option<(u16, Option<TaskConfig>)>) -> (r: FeedPoll)
    ensures
        match answer {
            Some((status, task)) => if success(status) {
                r == FeedPoll::Fetched(task)
            } else {
                r is Failed
            },
            None => r is Failed,
        },
{
    match answer {
        Some((status, task)) => {
            if is_success(status) {
                FeedPoll::Fetched(task)
            } else {
                FeedPoll::Failed
            }
        },
        None => FeedPoll::Failed,
    }
}

/// Takes up the id that the hub assigned. A node that has an id keeps it;
/// a node without one records the assigned id, and the result says that
/// the configuration is to be saved, which happens once.
pub fn adopt_node_id(config: &mut GridNodeConfig, assigned: &str) -> (save: bool)
    ensures
        save == old(config).node_id is None,
        final(config)@ == if save {
            crate::node_config::GridNodeConfigView { node_id: Some(assigned@), ..old(config)@ }
        } else {
            old(config)@
        },
{
    if config.node_id.is_none() {
        config.node_id = Some(String::from_str(assigned));
        true
    } else {
        false
    }
}

} // verus!
