use vstd::prelude::*;

verus! {

/// The host-side configuration of a container.
#[derive(Clone, Debug, PartialEq)]
pub struct ContainerSummaryHostConfig {
    pub network_mode: Option<String>,
}

} // verus!
