use crate::dockerapi::endpoint_settings::EndpointSettings;
use vstd::prelude::*;

verus! {

/// The networks of a container.
#[derive(Clone, Debug, PartialEq)]
pub struct ContainerSummaryNetworkSettings {
    /// Each network's name with the container's endpoint on it; no name
    /// occurs twice.
    pub networks: Option<Vec<(String, EndpointSettings)>>,
}

} // verus!
