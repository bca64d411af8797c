use crate::dockerapi::endpoint_ipam_config::EndpointIpamConfig;
use vstd::prelude::*;

verus! {

/// How a container is attached to one network.
#[derive(Clone, Debug, PartialEq)]
pub struct EndpointSettings {
    pub ipam_config: Option<EndpointIpamConfig>,
    pub links: Option<Vec<String>>,
    pub aliases: Option<Vec<String>>,
    /// Unique ID of the network.
    pub network_id: Option<String>,
    /// Unique ID for the service endpoint in a Sandbox.
    pub endpoint_id: Option<String>,
    /// Gateway address for this network.
    pub gateway: Option<String>,
    /// IPv4 address.
    pub ip_address: Option<String>,
    /// Mask length of the IPv4 address.
    pub ip_prefix_len: Option<i32>,
    /// IPv6 gateway address.
    pub ipv6_gateway: Option<String>,
    /// Global IPv6 address.
    pub global_ipv6_address: Option<String>,
    /// Mask length of the global IPv6 address.
    pub global_ipv6_prefix_len: Option<i64>,
    /// MAC address for the endpoint on this network.
    pub mac_address: Option<String>,
    /// Driver-specific options, each a name with its value; no name occurs
    /// twice.
    pub driver_opts: Option<Vec<(String, String)>>,
}

} // verus!
