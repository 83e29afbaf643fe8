//! The archive commands' data: what each takes from the command line,
//! and the default name of a freshly created archive.

use vstd::prelude::*;
use vstd::string::{StrSliceExecFns, StringExecFns};

verus! {

/// Building a new provider archive.
pub struct CreateCommand {
    pub capid: String,
    pub vendor: String,
    pub revision: Option<i32>,
    pub version: Option<String>,
    pub directory: Option<String>,
    pub issuer: Option<String>,
    pub subject: Option<String>,
    pub name: String,
    pub arch: String,
    pub binary: String,
    pub output: Option<String>,
}

/// Inspecting an existing archive.
pub struct InspectCommand {
    pub archive: String,
}

/// Inserting one more binary into an archive.
pub struct InsertCommand {
    pub archive: String,
    pub arch: String,
    pub binary: String,
    pub directory: Option<String>,
    pub issuer: Option<String>,
    pub subject: Option<String>,
}

pub enum ParCliCommand {
    Create(CreateCommand),
    Inspect(InspectCommand),
    Insert(InsertCommand),
}

/// The command-line form of the archive commands.
pub struct ParCli {
    pub command: ParCliCommand,
}

impl ParCli {
    pub fn command(self) -> (c: ParCliCommand)
        ensures
            c == self.command,
    {
        self.command
    }
}

/// Where a new archive goes when no output path was given: the binary's
/// file stem with the archive suffix.
pub fn default_archive_output(file_stem: &str) -> (r: String)
    ensures
        r@ == file_stem@ + ".par"@,
{
    let mut r = String::from_str(file_stem);
    r.append(".par");
    r
}

} // verus!
