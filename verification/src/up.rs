//! The console command's data: where the lattice endpoint is.

use vstd::prelude::*;
use vstd::string::StringExecFns;

verus! {

/// The endpoint the console's session connects to.
pub struct UpCommand {
    pub rpc_host: String,
    pub rpc_port: String,
}

impl UpCommand {
    /// The default endpoint: any local interface on the default port.
    pub fn default_endpoint() -> (c: Self)
        ensures
            c.rpc_host@ == "0.0.0.0"@,
            c.rpc_port@ == "4222"@,
    {
        UpCommand {
            rpc_host: String::from_str("0.0.0.0"),
            rpc_port: String::from_str("4222"),
        }
    }
}

/// The command-line form of the console command.
pub struct UpCli {
    pub command: UpCommand,
}

impl UpCli {
    pub fn command(self) -> (c: UpCommand)
        ensures
            c == self.command,
    {
        self.command
    }
}

} // verus!
