//! Heartbeat agent core: resolving the agent's settings from a YAML document,
//! building heartbeat payloads, and the connection-and-publish lifecycle as a
//! state machine that a driver feeds with the outcomes of broker operations.

pub mod yaml;
pub mod config;
pub mod clock;
pub mod payload;
pub mod publisher;
pub mod run;
