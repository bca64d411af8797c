use crate::dockerapi::container_summary_host_config::ContainerSummaryHostConfig;
use crate::dockerapi::container_summary_network_settings::ContainerSummaryNetworkSettings;
use crate::dockerapi::port::Port;
use vstd::prelude::*;

verus! {

/// The runtime's report of one container: a snapshot, which may be stale by
/// the time it is read.
#[derive(Clone, Debug, PartialEq)]
pub struct ContainerSummary {
    /// The ID of this container
    pub id: String,
    /// The names that this container has been given
    pub names: Option<Vec<String>>,
    /// The name of the image used when creating this container
    pub image: Option<String>,
    /// The ID of the image that this container was created from
    pub image_id: Option<String>,
    /// Command to run when starting the container
    pub command: Option<String>,
    /// When the container was created
    pub created: Option<i64>,
    /// The ports exposed by this container
    pub ports: Option<Vec<Port>>,
    /// The size of files that have been created or changed by this container
    pub size_rw: Option<i64>,
    /// The total size of all the files in this container
    pub size_root_fs: Option<i64>,
    /// User-defined metadata, each key with its value; no key occurs twice.
    pub labels: Option<Vec<(String, String)>>,
    /// The state of this container (e.g. `exited`)
    pub state: String,
    /// Additional human-readable status of this container (e.g. `Exit 0`)
    pub status: Option<String>,
    pub host_config: Option<ContainerSummaryHostConfig>,
    pub network_settings: Option<ContainerSummaryNetworkSettings>,
}

} // verus!
