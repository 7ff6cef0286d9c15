//! The outside work that tools ask for, and what comes back from it. The
//! library decides; whoever drives it performs the work.

use crate::result::ToolResult;
use vstd::prelude::*;

verus! {

/// Work on the workspace or the operating system that a tool needs done.
#[derive(Debug)]
pub enum Effect {
    /// Read a file, relative to the workspace root.
    ReadFile { path: String },
    /// Write a file, creating missing parent directories.
    WriteFile { path: String, content: String },
    /// List a directory.
    ListDir { path: String },
    /// Run a shell command in the foreground, within a time limit.
    Shell { command: String, timeout_secs: u64 },
    /// Start a shell command in the background; it will be recorded under
    /// `id`.
    Spawn { command: String, id: u64 },
    /// Terminate background process `id`.
    Kill { id: u64 },
    /// Run a program with arguments in the workspace.
    Run { program: String, args: Vec<String> },
}

/// What a finished command printed, and how it exited.
#[derive(Debug)]
pub struct CommandOutput {
    pub stdout: String,
    pub stderr: String,
    pub exit_code: Option<i32>,
}

/// One directory entry.
#[derive(Debug)]
pub struct DirEntry {
    pub name: String,
    pub is_dir: bool,
}

/// Why writing a file failed.
#[derive(Debug)]
pub enum WriteFailure {
    CreateDirs(String),
    Write(String),
}

/// What came back from an [`Effect`]; errors are the operating system's
/// messages.
#[derive(Debug)]
pub enum Outcome {
    Read(Result<String, String>),
    Written(Result<(), WriteFailure>),
    Listed(Result<Vec<DirEntry>, String>),
    Ran(Result<CommandOutput, String>),
    Spawned(Result<u32, String>),
    Killed(Result<(), String>),
}

/// What dispatching a tool call comes to: a result at once, or work to do
/// first.
#[derive(Debug)]
pub enum Dispatch {
    Done(ToolResult),
    Needs(Effect),
}

} // verus!
