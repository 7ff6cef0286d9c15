//! Core of a tool-using coding agent: the conversation loop, the tool
//! catalog and its dispatch, the table of background processes and the
//! per-run register store.
//!
//! The library decides and the caller acts. [`agent::AgentRun`] is the loop
//! as a state machine: it asks its driver to call the model or to perform a
//! piece of outside work ([`effects::Effect`]: a file read or write, a shell
//! command, a process to start or kill), and takes back what came of it.
//! Every tool call ends as one [`result::ToolResult`]; no failure of a tool
//! unwinds the loop.
//!
//! Two choices are left to the deployment and stated here rather than
//! decided silently:
//! - the [`process::ProcessManager`] is an explicit value handed to each
//!   step, so one table can serve one run or a whole process;
//! - paths are passed on relative to the workspace root as the model wrote
//!   them; nothing here stops a path from leaving the workspace through
//!   `..`.

pub mod agent;
pub mod args;
pub mod catalog;
pub mod commands;
pub mod effects;
pub mod files;
pub mod message;
pub mod models;
pub mod process;
pub mod process_tool;
pub mod prompt;
pub mod registers;
pub mod registry;
pub mod result;
pub mod schema;
pub mod shell;
pub mod text;
pub mod token_lookup;
