//! The hub's configuration.

use vstd::prelude::*;
use vstd::string::*;

verus! {

/// The hub's configuration: where it listens, and the token that every
/// protected request must carry.
#[derive(Debug, PartialEq, Eq)]
pub struct ServerConfig {
    pub bind: String,
    pub token: String,
}

/// The address the hub listens on unless told otherwise.
pub const DEFAULT_BIND: &'static str = "0.0.0.0:8080";

/// The token of a configuration that was never edited.
pub const DEFAULT_TOKEN: &'static str = "change-me-in-production";

/// The token that the generated configuration file holds.
pub const TEMPLATE_TOKEN: &'static str = "your-secret-token-change-this";

/// The configuration file written on first start.
pub const DEFAULT_CONFIG_TEXT: &'static str =
    "# IDM-GridCore ComputeHub Configuration\n\n# 监听地址\nbind = \"0.0.0.0:8080\"\n\n# 节点认证 Token（必须修改，用于验证 GridNode）\n# GridNode 需要在配置中设置相同的 token 才能连接\ntoken = \"your-secret-token-change-this\"\n";

/// The address the hub listens on unless told otherwise.
pub fn default_bind() -> (s: String)
    ensures
        s@ == DEFAULT_BIND@,
{
    String::from_str(DEFAULT_BIND)
}

/// The text of the configuration file written on first start.
pub fn generate_default_config() -> (s: String)
    ensures
        s@ == DEFAULT_CONFIG_TEXT@,
{
    String::from_str(DEFAULT_CONFIG_TEXT)
}

impl ServerConfig {
    /// Whether the token is one of the two that ship with the hub, and so
    /// protects nothing.
    pub fn uses_default_token(&self) -> (r: bool)
        ensures
            r == (self.token@ == DEFAULT_TOKEN@ || self.token@ == TEMPLATE_TOKEN@),
    {
        let shipped = String::from_str(DEFAULT_TOKEN);
        let template = String::from_str(TEMPLATE_TOKEN);
        self.token == shipped || self.token == template
    }
}

impl Default for ServerConfig {
    fn default() -> (c: Self)
        ensures
            c.bind@ == DEFAULT_BIND@,
            c.token@ == DEFAULT_TOKEN@,
    {
        ServerConfig { bind: default_bind(), token: String::from_str(DEFAULT_TOKEN) }
    }
}

impl Clone for ServerConfig {
    fn clone(&self) -> (c: Self)
        ensures
            c == *self,
    {
        ServerConfig { bind: self.bind.clone(), token: self.token.clone() }
    }
}

} // verus!
