//! Bridges standard input and output to topics of a zenoh bus: the argument
//! rules, the session configuration edits and the relay's decisions.

pub mod args;
pub mod config;
pub mod relay;
pub mod topic;
