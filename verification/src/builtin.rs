//! Descriptors of the commands that the module offers to the shell.

use vstd::prelude::*;

verus! {

/// The handlers that the module implements.
#[derive(Clone, Copy, Debug, PartialEq, Eq)]
pub enum Handler {
    /// The handler of `lastcmd`.
    LastCmd,
}

/// One command of the module as the shell's table of builtins records it.
///
/// The shell keeps a reference to the name and no copy of it, so the name
/// lives as long as the program.
#[derive(Clone, Copy, Debug, PartialEq, Eq)]
pub struct Builtin {
    /// The name under which the command is registered.
    pub name: &'static str,
    /// Flags that the shell keeps for the entry.
    pub flags: i32,
    /// The handler that the shell invokes, if there is one.
    pub handlerfunc: Option<Handler>,
    /// The least number of arguments the shell passes on.
    pub minargs: i32,
    /// The greatest number of arguments the shell passes on.
    pub maxargs: i32,
    /// A number by which one handler can tell its commands apart.
    pub funcid: i32,
    /// The options the command takes, if it takes any.
    pub optstr: Option<&'static str>,
    /// The options that are set by default, if any are.
    pub defopts: Option<&'static str>,
}

/// The descriptor of a command with the given name, handler and bounds on the
/// number of arguments. Everything else is left as the shell expects it of an
/// entry that was never registered: no flags, no id, no options.
pub fn new_builtin(
    name: &'static str,
    handlerfunc: Option<Handler>,
    minargs: i32,
    maxargs: i32,
) -> (descriptor: Builtin)
    ensures
        descriptor == (Builtin {
            name,
            flags: 0,
            handlerfunc,
            minargs,
            maxargs,
            funcid: 0,
            optstr: None,
            defopts: None,
        }),
{
    Builtin {
        name,
        flags: 0,
        handlerfunc,
        minargs,
        maxargs,
        funcid: 0,
        optstr: None,
        defopts: None,
    }
}

} // verus!
