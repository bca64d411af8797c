//! Sandboxed cargo runs in containers: the wire framing of a container
//! runtime's output stream, the requests of its control-plane API, and the
//! lifecycle state machine that provisions, runs and removes a sandbox.

pub mod cargo;
pub mod config;
pub mod container_type;
pub mod dockerapi;
pub mod encoding;
pub mod error;
pub mod laws;
pub mod orchestrator;
pub mod sandbox;
pub mod text;
