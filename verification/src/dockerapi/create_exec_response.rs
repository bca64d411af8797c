use vstd::prelude::*;

verus! {

/// What the runtime answers when it has set up a command to execute.
#[derive(Clone, Debug, PartialEq)]
pub struct CreateExecResponse {
    /// The ID under which the command is started
    pub id: String,
}

} // verus!
