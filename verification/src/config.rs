//! The command line, as the values that it is parsed into.

use vstd::prelude::*;

verus! {

/// The command line.
#[derive(Clone, Debug, PartialEq)]
pub struct Cli {
    pub command: Command,
}

/// The three commands.
#[derive(Clone, Debug, PartialEq)]
pub enum Command {
    /// alias for `cargo check`
    Check {  },
    /// alias for `cargo build`
    Build {  },
    /// alias for `cargo publish`
    Publish {
        /// cargo publish --token
        token: String,
    },
}

impl Command {
    /// The arguments that cargo is run with for a command: the command's
    /// name and, for a publication, the token behind `--token`.
    pub open spec fn spec_args(self) -> Seq<Seq<char>> {
        match self {
            Command::Check {  } => seq!["check"@],
            Command::Build {  } => seq!["build"@],
            Command::Publish { token } => seq!["publish"@, "--token"@, token@],
        }
    }

    /// The arguments that cargo is run with for this command.
    pub fn args(&self) -> (args: Vec<String>)
        ensures
            args.deep_view() == self.spec_args(),
    {
        let mut args: Vec<String> = Vec::new();
        match self {
            Command::Check {  } => {
                args.push(String::from_str("check"));
            },
            Command::Build {  } => {
                args.push(String::from_str("build"));
            },
            Command::Publish { token } => {
                args.push(String::from_str("publish"));
                args.push(String::from_str("--token"));
                args.push(token.clone());
            },
        }
        assert(args.deep_view() =~= self.spec_args());
        args
    }
}

} // verus!
