//! Tests for messages, session records, metrics, configuration and the
//! terminal application state.

use codex_agent_lib::config::AgentConfig;
use codex_agent_lib::config::ApprovalPolicy;
use codex_agent_lib::config::SandboxPolicy;
use codex_agent_lib::error::BackendError;
use codex_agent_lib::error::OutputError;
use codex_agent_lib::message::InputMessage;
use codex_agent_lib::message::OutputData;
use codex_agent_lib::message::TodoItem;
use codex_agent_lib::message::TodoStatus;
use codex_agent_lib::session::MessageHistory;
use codex_agent_lib::session::SessionMetrics;
use codex_agent_lib::tool::ToolResult;
use codex_agent_lib::tui::AgentTui;
use codex_agent_lib::tui::AppState;
use codex_agent_lib::tui::MessageRole;

#[test]
fn test_message_conversion() {
    let msg1 = InputMessage::from_text("Hello".to_string());
    assert_eq!(msg1.message, "Hello");
    assert!(msg1.images.is_empty());

    let msg2 = InputMessage::from_text("World".to_string());
    assert_eq!(msg2.message, "World");
    assert!(msg2.images.is_empty());
}

#[test]
fn test_output_data_helpers() {
    let completed = OutputData::Completed;
    assert!(completed.is_terminal());
    assert!(!completed.is_error());

    let error = OutputData::Error(OutputError::Interrupted);
    assert!(error.is_terminal());
    assert!(error.is_error());

    let primary = OutputData::Primary("test".to_string());
    assert!(!primary.is_terminal());
    assert!(!primary.is_error());
}

#[test]
fn test_message_history_records_in_order() {
    let mut history = MessageHistory::new(10);
    assert!(history.is_empty());
    history.add("user".to_string(), "hi".to_string());
    history.add("assistant".to_string(), "hello".to_string());
    assert_eq!(history.len(), 2);
    assert!(!history.is_empty());

    let all = history.get_all();
    assert_eq!(all[0].role, "user");
    assert_eq!(all[0].content, "hi");
    assert_eq!(all[1].role, "assistant");
    assert_eq!(all[1].content, "hello");

    history.clear();
    assert!(history.is_empty());
}

#[test]
fn test_message_history_drops_oldest_when_full() {
    let mut history = MessageHistory::new(2);
    history.add("user".to_string(), "one".to_string());
    history.add("user".to_string(), "two".to_string());
    history.add("user".to_string(), "three".to_string());
    assert_eq!(history.len(), 2);
    let all = history.get_all();
    assert_eq!(all[0].content, "two");
    assert_eq!(all[1].content, "three");
}

#[test]
fn test_session_metrics_counting() {
    let mut metrics = SessionMetrics::default();
    assert_eq!(metrics.messages_sent, 0);
    assert_eq!(metrics.messages_received, 0);

    metrics.record_sent();
    metrics.record_output(&OutputData::Primary("hi".to_string()));
    metrics.record_output(&OutputData::ToolStart {
        tool_name: "shell".to_string(),
        arguments: codex_agent_lib::message::ToolArguments { plan: None, command: None },
    });
    metrics.record_output(&OutputData::Error(OutputError::Interrupted));

    assert_eq!(metrics.messages_sent, 1);
    assert_eq!(metrics.messages_received, 3);
    assert_eq!(metrics.tool_calls, 1);
    assert_eq!(metrics.errors, 1);
    assert_eq!(metrics.tokens_used, 0);
}

#[test]
fn test_tool_result_constructors() {
    let ok = ToolResult::success("all good".to_string());
    assert!(ok.success);
    assert_eq!(ok.output, "all good");
    assert!(ok.error.is_none());

    let bad = ToolResult::failure("no such tool".to_string());
    assert!(!bad.success);
    assert_eq!(bad.output, "");
    assert_eq!(bad.error.as_deref(), Some("no such tool"));
}

#[test]
fn test_agent_config_defaults() {
    let config = AgentConfig::new("gpt-5-mini".to_string());
    assert_eq!(config.model, "gpt-5-mini");
    assert_eq!(config.model_provider, "openai");
    assert_eq!(config.max_turns, 100);
    assert!(matches!(config.sandbox_policy, SandboxPolicy::WorkspaceWrite));
    assert!(matches!(config.approval_policy, ApprovalPolicy::Never));
    assert!(config.api_key.is_none());
    assert!(!config.show_raw_reasoning);
}

#[test]
fn test_output_error_messages() {
    assert_eq!(OutputError::TurnLimitExceeded.message(), "Turn limit exceeded");
    assert_eq!(OutputError::ToolError("bad".to_string()).message(), "Tool error: bad");
    assert_eq!(OutputError::ModelError("m".to_string()).message(), "Model error: m");
    assert_eq!(OutputError::NetworkError("n".to_string()).message(), "Network error: n");
    assert_eq!(
        OutputError::AuthenticationError("a".to_string()).message(),
        "Authentication error: a"
    );
    assert_eq!(
        OutputError::ConfigurationError("c".to_string()).message(),
        "Configuration error: c"
    );
    assert_eq!(OutputError::Interrupted.message(), "Agent was interrupted");
    assert_eq!(OutputError::Unknown("odd".to_string()).message(), "Unknown error: odd");
}

#[test]
fn test_backend_error_classification() {
    assert!(matches!(
        OutputError::from_backend(BackendError::Interrupted),
        OutputError::Interrupted
    ));
    assert!(matches!(
        OutputError::from_backend(BackendError::Stream("cut".to_string())),
        OutputError::NetworkError(ref m) if m == "cut"
    ));
    assert!(matches!(
        OutputError::from_backend(BackendError::InternalAgentDied),
        OutputError::Unknown(ref m) if m == "Internal agent died"
    ));
    assert!(matches!(
        OutputError::from_backend(BackendError::Other("?".to_string())),
        OutputError::Unknown(ref m) if m == "?"
    ));
}

#[test]
fn test_app_state_starts_with_welcome() {
    let state = AppState::new();
    assert_eq!(state.messages.len(), 1);
    assert!(matches!(state.messages[0].role, MessageRole::System));
    assert_eq!(state.status, "Ready");
    assert!(!state.is_processing);
    assert_eq!(state.tool_output, "");
}

#[test]
fn test_app_state_mutations() {
    let mut state = AppState::new();
    state.add_message(MessageRole::User, "hi".to_string());
    assert_eq!(state.messages.len(), 2);
    assert_eq!(state.messages[1].content, "hi");

    state.update_todos(vec![TodoItem { content: "t".to_string(), status: TodoStatus::Blocked }]);
    assert_eq!(state.todos.len(), 1);

    state.set_status("Processing...".to_string());
    assert_eq!(state.status, "Processing...");

    state.append_tool_output("$ ls\n".to_string());
    state.append_tool_output("src\n".to_string());
    assert_eq!(state.tool_output, "$ ls\nsrc\n");

    state.clear_tool_output();
    assert_eq!(state.tool_output, "");
}

#[test]
fn test_app_state_truncates_overgrown_tool_output() {
    let mut state = AppState::new();
    state.append_tool_output("x".repeat(10_001));
    state.append_tool_output("tail".to_string());
    assert!(state.tool_output.starts_with("... (output truncated) ...\n"));
    assert!(state.tool_output.ends_with("tail"));
    assert_eq!(state.tool_output.len(), "... (output truncated) ...\n".len() + 5000 + 4);
}

#[test]
fn test_agent_tui_builders() {
    let tui = AgentTui::new();
    assert_eq!(tui.title, "Agent TUI");

    let tui = tui.with_title("My Agent".to_string());
    assert_eq!(tui.title, "My Agent");

    let tui = tui.with_messages(vec![
        codex_agent_lib::tui::Message { role: MessageRole::User, content: "hey".to_string() },
    ]);
    assert_eq!(tui.state.messages.len(), 1);
    assert_eq!(tui.state.messages[0].content, "hey");
}
