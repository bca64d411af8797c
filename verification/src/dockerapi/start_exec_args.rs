use vstd::prelude::*;

verus! {

/// How a command that was set up is started.
#[derive(Clone, Copy, Debug, PartialEq, Eq, Structural)]
pub struct StartExecArgs {
    /// Detach from the command.
    pub detach: bool,
    /// Allocate a pseudo-TTY.
    pub tty: bool,
}

} // verus!
