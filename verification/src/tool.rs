//! Tool definitions and interfaces.

use vstd::prelude::*;

verus! {

/// Represents a tool that can be called by the agent.
#[derive(Debug)]
pub struct Tool {
    /// Unique name of the tool.
    pub name: String,
    /// Description of what the tool does.
    pub description: String,
    /// JSON schema for the tool's parameters, as serialized text.
    pub parameters: String,
    /// Whether this tool requires approval before execution.
    pub requires_approval: bool,
}

/// A tool call request from the agent.
#[derive(Debug)]
pub struct ToolCall {
    /// ID of the tool call.
    pub id: String,
    /// Name of the tool to call.
    pub tool_name: String,
    /// Arguments for the tool, as serialized text.
    pub arguments: String,
}

/// Result of a tool execution.
#[derive(Debug)]
pub struct ToolResult {
    /// Whether the tool execution was successful.
    pub success: bool,
    /// The output from the tool.
    pub output: String,
    /// Optional error message if the tool failed.
    pub error: Option<String>,
}

impl ToolResult {
    /// Create a successful tool result.
    pub fn success(output: String) -> (r: ToolResult)
        ensures
            r.success,
            r.output == output,
            r.error is None,
    {
        ToolResult { success: true, output, error: None }
    }

    /// Create a failed tool result.
    pub fn failure(error: String) -> (r: ToolResult)
        ensures
            !r.success,
            r.output@.len() == 0,
            r.error matches Some(e) && e == error,
    {
        ToolResult { success: false, output: String::new(), error: Some(error) }
    }
}

/// Example data for a bash tool handler; the embedding application gives
/// it its asynchronous execution.
#[derive(Debug, Clone, Copy, PartialEq, Eq, Structural)]
pub struct BashToolHandler {
    /// Whether to allow network access.
    pub allow_network: bool,
}

/// Example data for a web search tool handler; the embedding application
/// gives it its asynchronous execution.
#[derive(Debug, Clone, Copy, PartialEq, Eq, Structural)]
pub struct WebSearchToolHandler;

} // verus!
