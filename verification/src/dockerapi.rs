//! The container runtime's control-plane API: its records, the requests that
//! carry them, and the framing of its streamed output.

pub mod client;
pub mod container_summary;
pub mod container_summary_host_config;
pub mod container_summary_network_settings;
pub mod create_container_args;
pub mod create_container_response;
pub mod create_exec_args;
pub mod create_exec_response;
pub mod endpoint_ipam_config;
pub mod endpoint_settings;
pub mod list_containers;
pub mod port;
pub mod start_exec_args;
pub mod stream;
