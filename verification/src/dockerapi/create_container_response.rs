use vstd::prelude::*;

verus! {

/// What the runtime answers when it has created a container.
#[derive(Clone, Debug, PartialEq)]
pub struct CreateContainerResponse {
    /// The ID of the created container
    pub id: String,
    /// Warnings encountered when creating the container
    pub warnings: Vec<String>,
}

} // verus!
