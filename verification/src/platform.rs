//! The operating systems whose conventions the library follows.

use vstd::prelude::*;

verus! {

/// The operating system the application runs on.
#[derive(Clone, Copy, Debug, PartialEq, Eq, Structural)]
pub enum Platform {
    MacOs,
    Windows,
    Linux,
    /// A Unix other than macOS and Linux.
    OtherUnix,
    /// Neither Unix nor Windows.
    Other,
}

/// Whether the platform belongs to the Unix family.
pub open spec fn is_unix(p: Platform) -> bool {
    p == Platform::MacOs || p == Platform::Linux || p == Platform::OtherUnix
}

/// A program to run, with its arguments.
#[derive(Debug)]
pub struct ProcessCommand {
    pub program: String,
    pub args: Vec<String>,
}

/// The value of a process command: the program and its arguments.
pub open spec fn command_view(c: ProcessCommand) -> (Seq<char>, Seq<Seq<char>>) {
    (c.program@, c.args@.map_values(|a: String| a@))
}

/// How a finished process exited.
#[derive(Clone, Copy, Debug, PartialEq, Eq)]
pub struct ProcessStatus {
    /// Whether it exited successfully.
    pub success: bool,
    /// Its exit code, where the platform reports one.
    pub code: Option<i32>,
}

} // verus!
