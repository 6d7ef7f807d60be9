//! Decision logic of the yon terminal-sharing endpoint.

pub mod backoff;
pub mod cli;
pub mod connecting;
pub mod failure;
pub mod host;
pub mod host_auth;
pub mod host_bridge;
pub mod host_files;
pub mod host_inputs;
pub mod host_relay;
pub mod host_session;
pub mod host_terminal;
pub mod local_control;
pub mod network;
pub mod pake;
pub mod progress;
pub mod protocol;
pub mod reaching;
