use vstd::prelude::*;

verus! {

/// The address configuration of an endpoint.
#[derive(Clone, Debug, PartialEq)]
pub struct EndpointIpamConfig {
    pub ipv4_address: Option<String>,
    pub ipv6_address: Option<String>,
    pub link_local_ips: Option<Vec<String>>,
}

impl Default for EndpointIpamConfig {
    fn default() -> (config: EndpointIpamConfig)
        ensures
            config.ipv4_address is None,
            config.ipv6_address is None,
            config.link_local_ips is None,
    {
        EndpointIpamConfig { ipv4_address: None, ipv6_address: None, link_local_ips: None }
    }
}

} // verus!
