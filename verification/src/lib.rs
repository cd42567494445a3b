//! An agent execution engine: it drives a long-lived conversational session
//! against an external reasoning backend, turning a stream of user inputs into
//! a stream of structured, incrementally observable output events, while
//! tracking plan state and enforcing session policy (turn limits, pause and
//! resume, cooperative cancellation).
//!
//! The backend itself (the component that executes operations and produces an
//! ordered event stream) is a collaborator outside this crate; the engine
//! models its event vocabulary and failures, and an embedding application
//! drives the channels: it pulls user inputs past the [`engine`] submission
//! gate into the backend, pulls backend events through the [`translate`]
//! translator onto the output and plan streams, and may interpose the
//! [`processing`] pipeline before its own consumer.

pub mod config;
pub mod control;
pub mod engine;
pub mod error;
pub mod message;
pub mod processing;
pub mod session;
pub mod tool;
pub mod translate;
pub mod tui;
pub mod utils;

pub use config::AgentConfig;
pub use config::ApprovalPolicy;
pub use config::McpServerConfig;
pub use config::SandboxPolicy;
pub use control::AgentState;
pub use control::ControlState;
pub use engine::InputDirective;
pub use error::AgentError;
pub use error::BackendError;
pub use error::OutputError;
pub use message::CommandArg;
pub use message::ImageInput;
pub use message::InputMessage;
pub use message::OutputData;
pub use message::OutputMessage;
pub use message::PlanArgEntry;
pub use message::PlanMessage;
pub use message::PlanMetadata;
pub use message::TodoItem;
pub use message::TodoStatus;
pub use message::ToolArguments;
pub use tool::Tool;
pub use tool::ToolCall;
pub use tool::ToolResult;
pub use translate::BackendEvent;
pub use translate::EventTranslator;
pub use translate::PlanStep;
pub use translate::PlanStepStatus;
