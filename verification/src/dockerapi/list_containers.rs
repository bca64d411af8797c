use crate::dockerapi::container_summary::ContainerSummary;
use vstd::prelude::*;

verus! {

/// The containers that a listing returned, in the runtime's order.
#[derive(Clone, Debug, PartialEq)]
pub struct ListContainersResponse {
    pub containers: Vec<ContainerSummary>,
}

/// Which containers a listing asks for.
#[derive(Clone, Debug, PartialEq)]
pub struct ListContainersArgs {
    /// Show all containers (default shows just running)
    pub all_containers: bool,
    /// Return this number of most recently created containers, including non-running ones.
    pub limit: Option<i32>,
    /// Show the containers sizes
    pub size: bool,
    /// Filters to process on the containers list.
    pub filters: Option<String>,
    /// Only show containers created before this container ID.
    pub before: Option<String>,
    /// Only show containers created after this container ID.
    pub since: Option<String>,
    /// Only show containers with the specified status.
    pub status: Option<Vec<String>>,
    /// Only show containers with the specified labels.
    pub label: Option<Vec<String>>,
}

impl Default for ListContainersArgs {
    /// The listing of the running containers, unfiltered and unlimited.
    fn default() -> (args: ListContainersArgs)
        ensures
            !args.all_containers,
            args.limit is None,
            !args.size,
            args.filters is None,
            args.before is None,
            args.since is None,
            args.status is None,
            args.label is None,
    {
        ListContainersArgs {
            all_containers: false,
            limit: None,
            size: false,
            filters: None,
            before: None,
            since: None,
            status: None,
            label: None,
        }
    }
}

} // verus!
