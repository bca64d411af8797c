use vstd::prelude::*;

verus! {

/// A one-shot command to run inside a container that is already running.
#[derive(Clone, Debug, PartialEq)]
pub struct CreateExecArgs {
    /// Attach to stdin of the exec command.
    pub attach_stdin: bool,
    /// Attach to stdout of the exec command.
    pub attach_stdout: bool,
    /// Attach to stderr of the exec command.
    pub attach_stderr: bool,
    /// Escape keys for detaching a container.
    pub detach_keys: String,
    /// Allocate a TTY for the exec command.
    pub tty: bool,
    /// The command to run in the container.
    pub cmd: Vec<String>,
    /// Environment variables to set in the container for the exec command.
    pub env: Vec<String>,
}

} // verus!
