//! Verified engine of an interactive operator console for a distributed
//! actor-hosting lattice.
//!
//! The crate holds the console's logic: the input line editor and its
//! history, the append-only output scrollback with its scroll arithmetic,
//! the command grammar and its parser, the dispatcher that turns command
//! outcomes into output lines or log records, the event-routing table of
//! the terminal loop, and the background host supervisor's state machine.
//! Terminal drawing, networking and file handling live outside the
//! library and hand it plain values.

pub mod input;
pub mod output;
pub mod text;
pub mod ctl;
pub mod command;
pub mod logbuf;
pub mod dispatch;
pub mod repl;
pub mod supervisor;
pub mod table;
pub mod drain;
pub mod par;
pub mod up;

use vstd::prelude::*;

verus! {

} // verus!
