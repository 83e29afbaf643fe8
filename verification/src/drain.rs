//! Cache draining: which cache folders a selection clears, and the
//! summary line reported afterwards, in plain text or as JSON.

use vstd::prelude::*;
use vstd::string::{StrSliceExecFns, StringExecFns};

verus! {

/// How the summary is reported.
#[derive(Clone, Copy, Debug, PartialEq, Eq)]
pub enum OutputKind {
    Text,
    JSON,
}

/// The reporting options of a drain run.
pub struct Output {
    pub kind: OutputKind,
}

/// Which caches to clear.
#[derive(Clone, Copy, Debug, PartialEq, Eq)]
pub enum DrainSelection {
    All,
    Oci,
    Lib,
}

pub struct DrainCliCommand {
    pub output: Output,
    pub selection: DrainSelection,
}

/// The command-line form of the drain command.
pub struct DrainCli {
    pub command: DrainCliCommand,
}

impl DrainCli {
    pub fn command(self) -> (c: DrainCliCommand)
        ensures
            c == self.command,
    {
        self.command
    }
}

/// The cache folders each selection clears, as names under the system's
/// temporary directory.
pub open spec fn spec_cache_folders(s: DrainSelection) -> Seq<Seq<char>> {
    match s {
        DrainSelection::All => seq!["wasmcloudcache"@, "wasmcloud_ocicache"@],
        DrainSelection::Oci => seq!["wasmcloud_ocicache"@],
        DrainSelection::Lib => seq!["wasmcloudcache"@],
    }
}

impl DrainSelection {
    /// The folders this selection clears, in order.
    pub fn cache_folders(&self) -> (r: Vec<String>)
        ensures
            r.deep_view() == spec_cache_folders(*self),
    {
        let mut r: Vec<String> = Vec::new();
        match self {
            DrainSelection::All => {
                r.push(String::from_str("wasmcloudcache"));
                r.push(String::from_str("wasmcloud_ocicache"));
            },
            DrainSelection::Oci => {
                r.push(String::from_str("wasmcloud_ocicache"));
            },
            DrainSelection::Lib => {
                r.push(String::from_str("wasmcloudcache"));
            },
        }
        proof {
            assert(r.deep_view() =~= spec_cache_folders(*self));
        }
        r
    }
}

/// What JSON serialization makes of a list of strings; it depends on
/// the strings alone.
pub uninterp spec fn json_string_list(items: Seq<Seq<char>>) -> Seq<char>;

/// Relies on `serde_json::to_string` for `Vec<String>`: one JSON array
/// of the given strings, in order, compactly and deterministically
/// encoded. Serializing strings cannot fail (only non-string map keys
/// and foreign `Serialize` impls can), so the unwrap never fires.
#[verifier::external_body]
fn json_list(items: &Vec<String>) -> (r: String)
    ensures
        r@ == json_string_list(items.deep_view()),
{
    serde_json::to_string(items).unwrap()
}

/// What std's `Debug` formatting makes of a list of strings; it depends
/// on the strings alone.
pub uninterp spec fn debug_string_list(items: Seq<Seq<char>>) -> Seq<char>;

/// Relies on std's `Debug` formatting of `Vec<String>`: one bracketed,
/// quoted listing of the given strings, a function of the strings alone.
#[verifier::external_body]
fn debug_list(items: &Vec<String>) -> (r: String)
    ensures
        r@ == debug_string_list(items.deep_view()),
{
    format!("{:?}", items)
}

/// The summary of a drain run over the cleared paths.
pub open spec fn drain_summary_text(kind: OutputKind, cleared: Seq<Seq<char>>) -> Seq<char> {
    match kind {
        OutputKind::Text => "Successfully cleared caches at: "@ + debug_string_list(cleared),
        OutputKind::JSON => "{\"drained\":"@ + json_string_list(cleared) + "}"@,
    }
}

/// Render the summary of a drain run.
pub fn drain_summary(kind: &OutputKind, cleared: &Vec<String>) -> (r: String)
    ensures
        r@ == drain_summary_text(*kind, cleared.deep_view()),
{
    match kind {
        OutputKind::Text => {
            let mut s = String::from_str("Successfully cleared caches at: ");
            let listing = debug_list(cleared);
            s.append(listing.as_str());
            s
        },
        OutputKind::JSON => {
            let mut s = String::from_str("{\"drained\":");
            let listing = json_list(cleared);
            s.append(listing.as_str());
            s.append("}");
            s
        },
    }
}

} // verus!
