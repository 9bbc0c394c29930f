//! Core logic of a compute grid: a hub that owns an ordered task queue and a
//! registry of worker nodes, and the per-slot controller that each node runs.

pub mod client;
pub mod controller;
pub mod driver;
pub mod feed;
pub mod host;
pub mod hub;
pub mod liveness;
pub mod node_config;
pub mod platform;
pub mod queue;
pub mod registry;
pub mod retry;
pub mod server_config;
pub mod shutdown;
pub mod slot;
pub mod task;
pub mod text;
