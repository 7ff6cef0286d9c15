//! The uniform result of a tool call.

use vstd::prelude::*;

verus! {

/// Whether a tool call succeeded.
#[derive(Clone, Copy, Debug, PartialEq, Eq, Structural)]
pub enum ToolStatus {
    Success,
    Error,
}

/// What a tool call gives back: a status, the text fed back to the model,
/// and optional structured metadata as name/value pairs.
#[derive(Debug)]
pub struct ToolResult {
    pub status: ToolStatus,
    pub text: String,
    pub metadata: Vec<(String, String)>,
}

impl ToolResult {
    /// A successful result with this text and no metadata.
    pub fn success(text: String) -> (r: ToolResult)
        ensures
            r.status == ToolStatus::Success,
            r.text == text,
            r.metadata@.len() == 0,
    {
        ToolResult { status: ToolStatus::Success, text, metadata: Vec::new() }
    }

    /// A failed result with this text and no metadata.
    pub fn error(text: String) -> (r: ToolResult)
        ensures
            r.status == ToolStatus::Error,
            r.text == text,
            r.metadata@.len() == 0,
    {
        ToolResult { status: ToolStatus::Error, text, metadata: Vec::new() }
    }

    /// This result with its metadata replaced.
    pub fn with_metadata(self, metadata: Vec<(String, String)>) -> (r: ToolResult)
        ensures
            r.status == self.status,
            r.text == self.text,
            r.metadata == metadata,
    {
        ToolResult { metadata, ..self }
    }

    /// Whether the call succeeded.
    pub fn is_success(&self) -> (r: bool)
        ensures
            r == (self.status == ToolStatus::Success),
    {
        self.status == ToolStatus::Success
    }
}

} // verus!
