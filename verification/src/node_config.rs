//! A node's configuration.

use crate::host::local_hostname;
use crate::text::opt_text;
use vstd::prelude::*;
use vstd::string::*;

verus! {

/// A node's configuration.
#[derive(Debug, PartialEq, Eq)]
pub struct GridNodeConfig {
    /// The hub's address.
    pub server_url: String,
    /// The token sent with every request.
    pub token: String,
    /// The node's id: none until the hub has assigned one.
    pub node_id: Option<String>,
    pub hostname: String,
    pub architecture: String,
    /// The number of slots; none to use the number of processors.
    pub parallelism: Option<u32>,
    /// Seconds between heartbeats.
    pub heartbeat_interval: u64,
    /// Seconds a unit is given to stop by itself.
    pub stop_timeout: u64,
    /// Memory limit of each unit, in megabytes.
    pub container_memory: u64,
}

/// The mathematical content of a [`GridNodeConfig`].
pub struct GridNodeConfigView {
    pub server_url: Seq<char>,
    pub token: Seq<char>,
    pub node_id: Option<Seq<char>>,
    pub hostname: Seq<char>,
    pub architecture: Seq<char>,
    pub parallelism: Option<u32>,
    pub heartbeat_interval: u64,
    pub stop_timeout: u64,
    pub container_memory: u64,
}

impl View for GridNodeConfig {
    type V = GridNodeConfigView;

    open spec fn view(&self) -> GridNodeConfigView {
        GridNodeConfigView {
            server_url: self.server_url@,
            token: self.token@,
            node_id: opt_text(self.node_id),
            hostname: self.hostname@,
            architecture: self.architecture@,
            parallelism: self.parallelism,
            heartbeat_interval: self.heartbeat_interval,
            stop_timeout: self.stop_timeout,
            container_memory: self.container_memory,
        }
    }
}

/// The hub address of a configuration that was never edited.
pub const DEFAULT_SERVER_URL: &'static str = "http://localhost:8080";

/// The token of a configuration that was never edited.
pub const DEFAULT_NODE_TOKEN: &'static str = "default-token";

/// The configuration file written on first start.
pub const DEFAULT_CONFIG_TEXT: &'static str =
    "# IDM-GridCore GridNode Configuration\n\n# ComputeHub 服务端地址\nserver_url = \"http://localhost:8080\"\n\n# 节点认证 Token（与服务端配置匹配）\ntoken = \"your-secret-token\"\n\n# 节点唯一 ID（首次启动由 ComputeHub 分配，自动保存）\n# node_id = \"\"\n\n# 主机名（默认自动检测）\n# hostname = \"my-node\"\n\n# CPU 架构（默认自动检测）\n# architecture = \"x86_64\"\n\n# 并行容器数（默认使用 CPU 核心数）\n# parallelism = 4\n\n# 心跳间隔（秒）\nheartbeat_interval = 30\n\n# 停止容器的优雅超时（秒）\n# 任务切换时，GridNode 会先发送 SIGTERM 给容器\n# 如果容器在这个时间内没有退出，会发送 SIGKILL 强制终止\n# 如果你的计算容器需要处理信号并完成当前工作，请设置足够长的时间\n# stop_timeout = 30\n";

/// The default configuration of a node with the given host name and
/// architecture.
pub open spec fn default_config(hostname: Seq<char>, architecture: Seq<char>) -> GridNodeConfigView {
    GridNodeConfigView {
        server_url: DEFAULT_SERVER_URL@,
        token: DEFAULT_NODE_TOKEN@,
        node_id: None,
        hostname,
        architecture,
        parallelism: None,
        heartbeat_interval: 30,
        stop_timeout: 30,
        container_memory: 1024,
    }
}

/// The grace period for a unit to stop, in seconds, where none is configured.
pub fn default_stop_timeout() -> (secs: u64)
    ensures
        secs == 30,
{
    30
}

/// The memory limit of a unit, in megabytes, where none is configured.
pub fn default_container_memory() -> (megabytes: u64)
    ensures
        megabytes == 1024,
{
    1024
}

/// The text of the configuration file written on first start.
pub fn generate_default_config() -> (s: String)
    ensures
        s@ == DEFAULT_CONFIG_TEXT@,
{
    String::from_str(DEFAULT_CONFIG_TEXT)
}

impl GridNodeConfig {
    /// The default configuration of a node with the given host name and
    /// architecture.
    pub fn with_identity(hostname: String, architecture: String) -> (c: Self)
        ensures
            c@ == default_config(hostname@, architecture@),
    {
        GridNodeConfig {
            server_url: String::from_str(DEFAULT_SERVER_URL),
            token: String::from_str(DEFAULT_NODE_TOKEN),
            node_id: None,
            hostname,
            architecture,
            parallelism: None,
            heartbeat_interval: 30,
            stop_timeout: default_stop_timeout(),
            container_memory: default_container_memory(),
        }
    }

    /// The default configuration of this host, for the given architecture.
    ///
    /// The host's name is asked of the operating system, so the contract says
    /// what holds whatever name came back.
    pub fn for_architecture(architecture: String) -> (c: Self)
        ensures
            c@ == default_config(c.hostname@, architecture@),
    {
        let hostname = local_hostname();
        GridNodeConfig::with_identity(hostname, architecture)
    }

    /// The number of slots to run: the configured number, else the number
    /// of processors detected, else one.
    pub fn get_parallelism(&self, detected: Option<u32>) -> (n: u32)
        ensures
            n == match self.parallelism {
                Some(p) => p,
                None => match detected {
                    Some(d) => d,
                    None => 1,
                },
            },
    {
        match self.parallelism {
            Some(p) => p,
            None => match detected {
                Some(d) => d,
                None => 1,
            },
        }
    }
}

} // verus!
