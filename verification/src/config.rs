//! Configuration value objects for the agent.

use vstd::prelude::*;
use vstd::string::StringExecFns;

verus! {

/// Sandbox policy for tool execution.
#[derive(Debug, Clone, Copy, PartialEq, Eq, Structural)]
pub enum SandboxPolicy {
    /// No restrictions.
    DangerFullAccess,
    /// Read-only access to the filesystem.
    ReadOnly,
    /// Read-write access to the workspace only.
    WorkspaceWrite,
}

/// Approval policy for tool execution.
#[derive(Debug, Clone, Copy, PartialEq, Eq, Structural)]
pub enum ApprovalPolicy {
    /// Never ask for approval (fully autonomous).
    Never,
    /// Ask on failure.
    OnFailure,
    /// Let the model decide when to ask.
    OnRequest,
    /// Always ask for approval except for safe commands.
    UnlessTrusted,
}

/// MCP server configuration.
#[derive(Debug)]
pub struct McpServerConfig {
    /// Name of the MCP server.
    pub name: String,
    /// Command to run the server.
    pub command: String,
    /// Arguments for the command.
    pub args: Vec<String>,
    /// Environment variables for the server, as name and value pairs.
    pub env: Vec<(String, String)>,
}

/// Main configuration for the agent, as far as the engine reads it. The
/// embedding application resolves anything environment-dependent (such as
/// the working directory) before constructing it.
#[derive(Debug)]
pub struct AgentConfig {
    /// Model to use.
    pub model: String,
    /// API key for authentication.
    pub api_key: Option<String>,
    /// Model provider.
    pub model_provider: String,
    /// System prompt for the agent.
    pub system_prompt: Option<String>,
    /// Base instructions for the agent.
    pub base_instructions: Option<String>,
    /// MCP servers to connect to.
    pub mcp_servers: Vec<McpServerConfig>,
    /// Maximum number of turns before stopping.
    pub max_turns: usize,
    /// Working directory for the agent.
    pub working_directory: String,
    /// Enable reasoning mode (for supported models).
    pub enable_reasoning: bool,
    /// Sandbox policy for tool execution.
    pub sandbox_policy: SandboxPolicy,
    /// Approval policy for tool execution.
    pub approval_policy: ApprovalPolicy,
    /// Custom home directory for the backend's own state.
    pub codex_home: Option<String>,
    /// Disable response storage (for zero data retention).
    pub disable_response_storage: bool,
    /// Show raw agent reasoning (for supported models).
    pub show_raw_reasoning: bool,
}

impl AgentConfig {
    /// A configuration for the given model with every other choice at its
    /// default: provider `openai`, one hundred turns, workspace-write
    /// sandboxing, no approvals, the current directory.
    pub fn new(model: String) -> (r: AgentConfig)
        ensures
            r.model == model,
            r.api_key is None,
            r.model_provider@ == "openai"@,
            r.system_prompt is None,
            r.base_instructions is None,
            r.mcp_servers@.len() == 0,
            r.max_turns == 100usize,
            r.working_directory@ == "."@,
            !r.enable_reasoning,
            r.sandbox_policy == SandboxPolicy::WorkspaceWrite,
            r.approval_policy == ApprovalPolicy::Never,
            r.codex_home is None,
            !r.disable_response_storage,
            !r.show_raw_reasoning,
    {
        AgentConfig {
            model,
            api_key: None,
            model_provider: String::from_str("openai"),
            system_prompt: None,
            base_instructions: None,
            mcp_servers: Vec::new(),
            max_turns: 100,
            working_directory: String::from_str("."),
            enable_reasoning: false,
            sandbox_policy: SandboxPolicy::WorkspaceWrite,
            approval_policy: ApprovalPolicy::Never,
            codex_home: None,
            disable_response_storage: false,
            show_raw_reasoning: false,
        }
    }
}

} // verus!
