//! Verified core of a shell extension that adds the `lastcmd` command: it
//! expands every `!!` of a command-line template to the previous command line
//! and asks the shell to run the result.
//!
//! The library decides; the code that loads it into a shell reads the shell's
//! memory and makes the calls that the decisions name.

use vstd::prelude::*;

pub mod builtin;
pub mod expand;
pub mod handler;
pub mod hooks;
pub mod module;
pub mod pieces;
pub mod text;

verus! {

/// The status that reports success to the shell.
pub const SUCCESS: i32 = 0;

} // verus!
