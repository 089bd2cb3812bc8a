//! The git credential helper: which git command it runs on the local host.
use crate::protocol::SpawnRequest;
use vstd::prelude::*;

verus! {

/// The credential operation git asks the helper for.
#[derive(Debug, Clone, Copy, PartialEq, Eq, Structural)]
pub enum Command {
    /// Return a matching credential, if any exists.
    Get,
    /// Store the credential.
    Store,
    /// Remove a matching credential.
    Erase,
}

/// The `git credential` subcommand that carries out an operation.
pub open spec fn spec_credential_verb(command: Command) -> Seq<char> {
    match command {
        Command::Get => "fill"@,
        Command::Store => "approve"@,
        Command::Erase => "reject"@,
    }
}

impl Command {
    /// The request to run `git credential <verb>` on the local host.
    pub fn spawn_request(self) -> (req: SpawnRequest)
        ensures
            req.command@ == "git"@,
            req.args@.len() == 2,
            req.args@[0]@ == "credential"@,
            req.args@[1]@ == spec_credential_verb(self),
    {
        let verb = match self {
            Command::Get => String::from_str("fill"),
            Command::Store => String::from_str("approve"),
            Command::Erase => String::from_str("reject"),
        };
        let mut args: Vec<String> = Vec::new();
        args.push(String::from_str("credential"));
        args.push(verb);
        SpawnRequest { command: String::from_str("git"), args }
    }
}

} // verus!
