//! Command specifications.
//!
//! A `CommandSpec` says which executable to spawn, with which arguments, and
//! records the kill-on-drop obligation: the OS process created from it must
//! be terminated if the operation that owns it is cancelled or abandoned
//! before completion. The spawning itself happens outside this crate; every
//! spec built here carries the obligation.

use vstd::prelude::*;
use vstd::string::StringExecFns;

verus! {

/// An external command to spawn: an executable path (absolute or
/// PATH-resolved) and an ordered argument list, plus the kill-on-drop
/// obligation. Immutable once constructed.
#[derive(Debug, Clone)]
pub struct CommandSpec {
    pub program: String,
    pub args: Vec<String>,
    pub kill_on_drop: bool,
}

/// Build the command for `program`, with no arguments yet, set to be killed
/// on drop so that no process outlives the request that spawned it.
pub fn command(program: String) -> (c: CommandSpec)
    ensures
        c.program@ == program@,
        c.args@.len() == 0,
        c.kill_on_drop,
{
    CommandSpec { program, args: Vec::new(), kill_on_drop: true }
}

impl CommandSpec {
    /// Append one argument; program and kill-on-drop stay as they were.
    pub fn arg(&mut self, a: String)
        ensures
            final(self).program == old(self).program,
            final(self).args@ == old(self).args@.push(a),
            final(self).kill_on_drop == old(self).kill_on_drop,
    {
        self.args.push(a);
    }
}

/// The command that resolves where `program`'s binary lives on this host:
/// `whereis <program>`, killed on drop like every other command.
pub fn where_is(program: String) -> (c: CommandSpec)
    ensures
        c.program@ == "whereis"@,
        c.args@.len() == 1,
        c.args@[0]@ == program@,
        c.kill_on_drop,
{
    let mut c = command(String::from_str("whereis"));
    c.arg(program);
    c
}

} // verus!
