//! Error types: lifecycle errors returned synchronously, errors surfaced as
//! output events, and the model of the backend's own failures.

use vstd::prelude::*;
use vstd::string::StringExecFns;

verus! {

/// The model of an unrecoverable or per-call failure reported by the backend
/// collaborator. The embedding application converts the backend's error value
/// into this vocabulary before handing it to the engine.
#[derive(Debug, Clone)]
pub enum BackendError {
    /// The backend observed a cooperative interruption.
    Interrupted,
    /// The backend's internal agent died.
    InternalAgentDied,
    /// A streaming failure, with its message.
    Stream(String),
    /// Any other backend failure, rendered as text.
    Other(String),
}

pub ghost enum BackendErrorView {
    Interrupted,
    InternalAgentDied,
    Stream(Seq<char>),
    Other(Seq<char>),
}

impl View for BackendError {
    type V = BackendErrorView;

    open spec fn view(&self) -> BackendErrorView {
        match self {
            BackendError::Interrupted => BackendErrorView::Interrupted,
            BackendError::InternalAgentDied => BackendErrorView::InternalAgentDied,
            BackendError::Stream(s) => BackendErrorView::Stream(s@),
            BackendError::Other(s) => BackendErrorView::Other(s@),
        }
    }
}

/// Error types that can be sent as output messages.
#[derive(Debug, Clone)]
pub enum OutputError {
    /// Turn limit exceeded.
    TurnLimitExceeded,
    /// Tool execution failed.
    ToolError(String),
    /// Model API error.
    ModelError(String),
    /// Network error.
    NetworkError(String),
    /// Authentication failed.
    AuthenticationError(String),
    /// Agent was interrupted.
    Interrupted,
    /// Configuration error.
    ConfigurationError(String),
    /// Unknown error.
    Unknown(String),
}

pub ghost enum OutputErrorView {
    TurnLimitExceeded,
    ToolError(Seq<char>),
    ModelError(Seq<char>),
    NetworkError(Seq<char>),
    AuthenticationError(Seq<char>),
    Interrupted,
    ConfigurationError(Seq<char>),
    Unknown(Seq<char>),
}

impl View for OutputError {
    type V = OutputErrorView;

    open spec fn view(&self) -> OutputErrorView {
        match self {
            OutputError::TurnLimitExceeded => OutputErrorView::TurnLimitExceeded,
            OutputError::ToolError(s) => OutputErrorView::ToolError(s@),
            OutputError::ModelError(s) => OutputErrorView::ModelError(s@),
            OutputError::NetworkError(s) => OutputErrorView::NetworkError(s@),
            OutputError::AuthenticationError(s) => OutputErrorView::AuthenticationError(s@),
            OutputError::Interrupted => OutputErrorView::Interrupted,
            OutputError::ConfigurationError(s) => OutputErrorView::ConfigurationError(s@),
            OutputError::Unknown(s) => OutputErrorView::Unknown(s@),
        }
    }
}

/// How a backend failure surfaces in the output vocabulary: interruption and
/// streaming failures keep their identity, everything else is `Unknown`.
pub open spec fn spec_output_error_of_backend(e: BackendErrorView) -> OutputErrorView {
    match e {
        BackendErrorView::Interrupted => OutputErrorView::Interrupted,
        BackendErrorView::InternalAgentDied => OutputErrorView::Unknown(
            "Internal agent died"@,
        ),
        BackendErrorView::Stream(msg) => OutputErrorView::NetworkError(msg),
        BackendErrorView::Other(msg) => OutputErrorView::Unknown(msg),
    }
}

impl OutputError {
    /// Classify a backend failure as an output error.
    pub fn from_backend(e: BackendError) -> (r: OutputError)
        ensures
            r@ == spec_output_error_of_backend(e@),
    {
        match e {
            BackendError::Interrupted => OutputError::Interrupted,
            BackendError::InternalAgentDied => OutputError::Unknown(
                String::from_str("Internal agent died"),
            ),
            BackendError::Stream(msg) => OutputError::NetworkError(msg),
            BackendError::Other(msg) => OutputError::Unknown(msg),
        }
    }

    /// An owned copy with the same view.
    pub fn duplicate(&self) -> (r: OutputError)
        ensures
            r@ == self@,
    {
        match self {
            OutputError::TurnLimitExceeded => OutputError::TurnLimitExceeded,
            OutputError::ToolError(s) => OutputError::ToolError(s.clone()),
            OutputError::ModelError(s) => OutputError::ModelError(s.clone()),
            OutputError::NetworkError(s) => OutputError::NetworkError(s.clone()),
            OutputError::AuthenticationError(s) => OutputError::AuthenticationError(s.clone()),
            OutputError::Interrupted => OutputError::Interrupted,
            OutputError::ConfigurationError(s) => OutputError::ConfigurationError(s.clone()),
            OutputError::Unknown(s) => OutputError::Unknown(s.clone()),
        }
    }

    /// Render the error as one line of text.
    pub fn message(&self) -> (r: String)
        ensures
            r@ == self@.spec_message(),
    {
        match self {
            OutputError::TurnLimitExceeded => String::from_str("Turn limit exceeded"),
            OutputError::ToolError(msg) => concat_prefix("Tool error: ", msg),
            OutputError::ModelError(msg) => concat_prefix("Model error: ", msg),
            OutputError::NetworkError(msg) => concat_prefix("Network error: ", msg),
            OutputError::AuthenticationError(msg) => concat_prefix(
                "Authentication error: ",
                msg,
            ),
            OutputError::Interrupted => String::from_str("Agent was interrupted"),
            OutputError::ConfigurationError(msg) => concat_prefix(
                "Configuration error: ",
                msg,
            ),
            OutputError::Unknown(msg) => concat_prefix("Unknown error: ", msg),
        }
    }
}

impl OutputErrorView {
    /// The text that `message` renders for each variant.
    pub open spec fn spec_message(self) -> Seq<char> {
        match self {
            OutputErrorView::TurnLimitExceeded => "Turn limit exceeded"@,
            OutputErrorView::ToolError(msg) => "Tool error: "@ + msg,
            OutputErrorView::ModelError(msg) => "Model error: "@ + msg,
            OutputErrorView::NetworkError(msg) => "Network error: "@ + msg,
            OutputErrorView::AuthenticationError(msg) => "Authentication error: "@ + msg,
            OutputErrorView::Interrupted => "Agent was interrupted"@,
            OutputErrorView::ConfigurationError(msg) => "Configuration error: "@ + msg,
            OutputErrorView::Unknown(msg) => "Unknown error: "@ + msg,
        }
    }
}

/// Join a literal prefix to a message.
pub(crate) fn concat_prefix(prefix: &str, msg: &String) -> (r: String)
    ensures
        r@ == prefix@ + msg@,
{
    let mut r = String::from_str(prefix);
    r.append(msg.as_str());
    r
}

/// Main error type for agent operations, returned synchronously from
/// engine-lifecycle calls.
#[derive(Debug, Clone)]
pub enum AgentError {
    /// Configuration error.
    ConfigError(String),
    /// Connection error.
    ConnectionError(String),
    /// Tool execution error.
    ToolError(String),
    /// Model error.
    ModelError(String),
    /// Agent is already running.
    AlreadyRunning,
    /// Agent is not running.
    NotRunning,
    /// Authentication failed.
    AuthenticationError(String),
    /// MCP server error.
    McpError(String),
    /// Internal error.
    InternalError(String),
    /// A caller-side channel was closed when a send was attempted.
    ChannelError,
    /// An error that was also surfaced as an output message.
    OutputError(OutputError),
    /// A failure reported by the backend.
    CoreError(BackendError),
}

pub ghost enum AgentErrorView {
    ConfigError(Seq<char>),
    ConnectionError(Seq<char>),
    ToolError(Seq<char>),
    ModelError(Seq<char>),
    AlreadyRunning,
    NotRunning,
    AuthenticationError(Seq<char>),
    McpError(Seq<char>),
    InternalError(Seq<char>),
    ChannelError,
    OutputError(OutputErrorView),
    CoreError(BackendErrorView),
}

impl View for AgentError {
    type V = AgentErrorView;

    open spec fn view(&self) -> AgentErrorView {
        match self {
            AgentError::ConfigError(s) => AgentErrorView::ConfigError(s@),
            AgentError::ConnectionError(s) => AgentErrorView::ConnectionError(s@),
            AgentError::ToolError(s) => AgentErrorView::ToolError(s@),
            AgentError::ModelError(s) => AgentErrorView::ModelError(s@),
            AgentError::AlreadyRunning => AgentErrorView::AlreadyRunning,
            AgentError::NotRunning => AgentErrorView::NotRunning,
            AgentError::AuthenticationError(s) => AgentErrorView::AuthenticationError(s@),
            AgentError::McpError(s) => AgentErrorView::McpError(s@),
            AgentError::InternalError(s) => AgentErrorView::InternalError(s@),
            AgentError::ChannelError => AgentErrorView::ChannelError,
            AgentError::OutputError(e) => AgentErrorView::OutputError(e@),
            AgentError::CoreError(e) => AgentErrorView::CoreError(e@),
        }
    }
}

} // verus!
