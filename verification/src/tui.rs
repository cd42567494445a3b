//! Terminal user interface state: the chat transcript, todo list, status
//! line and tool output buffer that a renderer draws. The drawing and the
//! terminal I/O live in the embedding application; the state logic here is
//! what the output and plan streams mutate.

use vstd::prelude::*;
use vstd::string::StrSliceExecFns;
use vstd::string::StringExecFns;

use crate::message::TodoItem;

verus! {

/// The speaker of a chat message.
#[derive(Debug, Clone, Copy, PartialEq, Eq, Structural)]
pub enum MessageRole {
    User,
    Assistant,
    System,
}

/// Message in the chat.
#[derive(Debug)]
pub struct Message {
    /// Who speaks.
    pub role: MessageRole,
    /// What is said.
    pub content: String,
}

/// Application state.
#[derive(Debug)]
pub struct AppState {
    /// Input field content.
    pub input: String,
    /// Chat history.
    pub messages: Vec<Message>,
    /// Todo list.
    pub todos: Vec<TodoItem>,
    /// Current agent status.
    pub status: String,
    /// Tool output buffer.
    pub tool_output: String,
    /// Whether the agent is processing.
    pub is_processing: bool,
}

/// A fresh application state: a single system welcome message, the `Ready`
/// status, and everything else empty.
pub open spec fn spec_initial_app_state(s: AppState) -> bool {
    &&& s.input@.len() == 0
    &&& s.messages@.len() == 1
    &&& s.messages@[0].role == MessageRole::System
    &&& s.messages@[0].content@
        == "Welcome! I'll help you with Python development. Let me set up the environment..."@
    &&& s.todos@.len() == 0
    &&& s.status@ == "Ready"@
    &&& s.tool_output@.len() == 0
    &&& !s.is_processing
}

/// How the tool output buffer grows: a buffer past ten thousand characters
/// first keeps only its last five thousand behind a truncation marker, and
/// the new output joins at the end.
pub open spec fn spec_append_tool_output(buffer: Seq<char>, output: Seq<char>) -> Seq<char> {
    let kept = if buffer.len() > 10000 {
        "... (output truncated) ...\n"@ + buffer.skip(buffer.len() - 5000)
    } else {
        buffer
    };
    kept + output
}

impl AppState {
    /// A fresh application state.
    pub fn new() -> (r: AppState)
        ensures
            spec_initial_app_state(r),
    {
        let mut messages: Vec<Message> = Vec::new();
        messages.push(
            Message {
                role: MessageRole::System,
                content: String::from_str(
                    "Welcome! I'll help you with Python development. Let me set up the environment...",
                ),
            },
        );
        AppState {
            input: String::new(),
            messages,
            todos: Vec::new(),
            status: String::from_str("Ready"),
            tool_output: String::new(),
            is_processing: false,
        }
    }

    /// Append a chat message.
    pub fn add_message(&mut self, role: MessageRole, content: String)
        ensures
            final(self).messages@ == old(self).messages@.push(Message { role, content }),
            final(self).input == old(self).input,
            final(self).todos == old(self).todos,
            final(self).status == old(self).status,
            final(self).tool_output == old(self).tool_output,
            final(self).is_processing == old(self).is_processing,
    {
        self.messages.push(Message { role, content });
    }

    /// Replace the todo list.
    pub fn update_todos(&mut self, todos: Vec<TodoItem>)
        ensures
            final(self).todos == todos,
            final(self).input == old(self).input,
            final(self).messages == old(self).messages,
            final(self).status == old(self).status,
            final(self).tool_output == old(self).tool_output,
            final(self).is_processing == old(self).is_processing,
    {
        self.todos = todos;
    }

    /// Replace the status line.
    pub fn set_status(&mut self, status: String)
        ensures
            final(self).status == status,
            final(self).input == old(self).input,
            final(self).messages == old(self).messages,
            final(self).todos == old(self).todos,
            final(self).tool_output == old(self).tool_output,
            final(self).is_processing == old(self).is_processing,
    {
        self.status = status;
    }

    /// Append to the tool output buffer, trimming an overgrown buffer to
    /// its tail behind a truncation marker first.
    pub fn append_tool_output(&mut self, output: String)
        ensures
            final(self).tool_output@ == spec_append_tool_output(
                old(self).tool_output@,
                output@,
            ),
            final(self).input == old(self).input,
            final(self).messages == old(self).messages,
            final(self).todos == old(self).todos,
            final(self).status == old(self).status,
            final(self).is_processing == old(self).is_processing,
    {
        let len = self.tool_output.as_str().unicode_len();
        if len > 10000 {
            let start = len - 5000;
            let tail = self.tool_output.as_str().substring_char(start, len);
            let mut kept = String::from_str("... (output truncated) ...\n");
            kept.append(tail);
            self.tool_output = kept;
        }
        self.tool_output.append(output.as_str());
    }

    /// Clear the tool output buffer.
    pub fn clear_tool_output(&mut self)
        ensures
            final(self).tool_output@.len() == 0,
            final(self).input == old(self).input,
            final(self).messages == old(self).messages,
            final(self).todos == old(self).todos,
            final(self).status == old(self).status,
            final(self).is_processing == old(self).is_processing,
    {
        self.tool_output = String::new();
    }
}

/// The terminal application's state and title; an embedding application
/// owns the terminal, renders this state and routes the streams into it.
#[derive(Debug)]
pub struct AgentTui {
    /// The application state the renderer draws.
    pub state: AppState,
    /// The window title.
    pub title: String,
}

impl AgentTui {
    /// A fresh application under the default title.
    pub fn new() -> (r: AgentTui)
        ensures
            spec_initial_app_state(r.state),
            r.title@ == "Agent TUI"@,
    {
        AgentTui { state: AppState::new(), title: String::from_str("Agent TUI") }
    }

    /// Set the title of the application.
    pub fn with_title(self, title: String) -> (r: AgentTui)
        ensures
            r.state == self.state,
            r.title == title,
    {
        AgentTui { state: self.state, title }
    }

    /// Set initial messages.
    pub fn with_messages(self, messages: Vec<Message>) -> (r: AgentTui)
        ensures
            r.state.messages == messages,
            r.state.input == self.state.input,
            r.state.todos == self.state.todos,
            r.state.status == self.state.status,
            r.state.tool_output == self.state.tool_output,
            r.state.is_processing == self.state.is_processing,
            r.title == self.title,
    {
        let mut state = self.state;
        state.messages = messages;
        AgentTui { state, title: self.title }
    }
}

/// The tick rate an event poller runs at; the embedding application owns
/// the polling itself.
#[derive(Debug)]
pub struct EventHandler {
    /// How long one poll waits before yielding a tick.
    pub tick_rate: core::time::Duration,
}

impl EventHandler {
    /// Create a new event handler with the given tick rate.
    pub fn new(tick_rate: core::time::Duration) -> (r: EventHandler)
        ensures
            r.tick_rate == tick_rate,
    {
        EventHandler { tick_rate }
    }
}

} // verus!
