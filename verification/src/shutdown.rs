//! The forceful teardown of the sidecar's process tree: the command that
//! kills a process and all that descends from it, for each kind of platform.

use vstd::prelude::*;
use vstd::string::*;
use crate::command::{texts, StreamTarget};
use crate::decimal::{append_decimal, decimal_string, decimal_text};

verus! {

/// The kind of operating system that the shell runs on.
#[derive(Clone, Copy, Debug, PartialEq, Eq, Structural)]
pub enum Platform {
    /// Windows and its like, with a utility that kills a process tree.
    Windows,
    /// POSIX and its like, where a signal reaches a whole process group.
    Posix,
}

/// A command that kills a process tree. Its outcome is not looked at.
#[derive(Debug, PartialEq, Eq)]
pub struct KillCommand {
    /// The program, looked up on the search path.
    pub program: String,
    /// Its arguments.
    pub args: Vec<String>,
    /// Where its standard output goes.
    pub stdout: StreamTarget,
    /// Where its standard error goes.
    pub stderr: StreamTarget,
}

/// The program that kills a process tree on a platform.
pub open spec fn kill_program(platform: Platform) -> Seq<char> {
    match platform {
        Platform::Windows => "taskkill"@,
        Platform::Posix => "kill"@,
    }
}

/// The arguments that make the program kill the tree of process `pid`, by
/// force. On Windows: `/F /T /PID <pid>`. On POSIX: `-s KILL -- -<pid>`, the
/// kill signal to the process group that the process leads.
pub open spec fn kill_args(platform: Platform, pid: nat) -> Seq<Seq<char>> {
    match platform {
        Platform::Windows => seq!["/F"@, "/T"@, "/PID"@, decimal_text(pid)],
        Platform::Posix => seq!["-s"@, "KILL"@, "--"@, "-"@ + decimal_text(pid)],
    }
}

/// Whether `command` kills the tree of process `pid` on `platform`, with its
/// own output discarded.
pub open spec fn is_kill_command(command: KillCommand, platform: Platform, pid: nat) -> bool {
    &&& command.program@ == kill_program(platform)
    &&& texts(command.args@) == kill_args(platform, pid)
    &&& command.stdout == StreamTarget::Discarded
    &&& command.stderr == StreamTarget::Discarded
}

/// The command that kills the process `pid` and every process descended
/// from it.
pub fn kill_process_tree(platform: Platform, pid: u32) -> (command: KillCommand)
    ensures
        is_kill_command(command, platform, pid as nat),
{
    let mut args: Vec<String> = Vec::new();
    let program = match platform {
        Platform::Windows => {
            args.push(String::from_str("/F"));
            args.push(String::from_str("/T"));
            args.push(String::from_str("/PID"));
            args.push(decimal_string(pid));
            String::from_str("taskkill")
        },
        Platform::Posix => {
            args.push(String::from_str("-s"));
            args.push(String::from_str("KILL"));
            args.push(String::from_str("--"));
            let mut group = String::from_str("-");
            append_decimal(&mut group, pid);
            args.push(group);
            String::from_str("kill")
        },
    };
    assert(texts(args@) =~= kill_args(platform, pid as nat));
    KillCommand { program, args, stdout: StreamTarget::Discarded, stderr: StreamTarget::Discarded }
}

} // verus!
