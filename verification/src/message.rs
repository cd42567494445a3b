//! Message types for agent communication: user inputs, structured output
//! events, plan updates, and the plain-value model of tool-call arguments.

use vstd::prelude::*;

use crate::error::OutputError;
use crate::error::OutputErrorView;

verus! {

/// Input message sent to the agent.
#[derive(Debug, Clone)]
pub struct InputMessage {
    /// The message content.
    pub message: String,
    /// Optional images to include with the message.
    pub images: Vec<ImageInput>,
}

/// Image input for the agent.
#[derive(Debug, Clone)]
pub enum ImageInput {
    /// Base64 encoded image data.
    Base64(String),
    /// Path to an image file.
    Path(String),
    /// URL to an image.
    Url(String),
}

pub ghost struct InputMessageView {
    pub message: Seq<char>,
    pub images: Seq<ImageInputView>,
}

pub ghost enum ImageInputView {
    Base64(Seq<char>),
    Path(Seq<char>),
    Url(Seq<char>),
}

impl View for ImageInput {
    type V = ImageInputView;

    open spec fn view(&self) -> ImageInputView {
        match self {
            ImageInput::Base64(s) => ImageInputView::Base64(s@),
            ImageInput::Path(s) => ImageInputView::Path(s@),
            ImageInput::Url(s) => ImageInputView::Url(s@),
        }
    }
}

impl View for InputMessage {
    type V = InputMessageView;

    open spec fn view(&self) -> InputMessageView {
        InputMessageView {
            message: self.message@,
            images: self.images@.map_values(|i: ImageInput| i@),
        }
    }
}

impl InputMessage {
    /// Wrap bare text as an input message without images.
    pub fn from_text(message: String) -> (r: InputMessage)
        ensures
            r@.message == message@,
            r@.images.len() == 0,
    {
        InputMessage { message, images: Vec::new() }
    }
}

/// Todo item status.
#[derive(Debug, Clone, Copy, PartialEq, Eq, Structural)]
pub enum TodoStatus {
    /// Task is pending.
    Pending,
    /// Task is in progress.
    InProgress,
    /// Task is completed.
    Completed,
    /// Task is blocked.
    Blocked,
}

/// Represents a todo item.
#[derive(Debug, Clone)]
pub struct TodoItem {
    /// The task description.
    pub content: String,
    /// The task status.
    pub status: TodoStatus,
}

pub ghost struct TodoItemView {
    pub content: Seq<char>,
    pub status: TodoStatus,
}

impl View for TodoItem {
    type V = TodoItemView;

    open spec fn view(&self) -> TodoItemView {
        TodoItemView { content: self.content@, status: self.status }
    }
}

/// Metadata about a plan update.
#[derive(Debug, Clone)]
pub struct PlanMetadata {
    /// The turn ID when this plan was updated.
    pub turn_id: u64,
    /// Optional description of the update.
    pub description: Option<String>,
}

pub ghost struct PlanMetadataView {
    pub turn_id: u64,
    pub description: Option<Seq<char>>,
}

impl View for PlanMetadata {
    type V = PlanMetadataView;

    open spec fn view(&self) -> PlanMetadataView {
        PlanMetadataView {
            turn_id: self.turn_id,
            description: match self.description {
                Some(ref d) => Some(d@),
                None => None,
            },
        }
    }
}

/// Plan update message sent through the dedicated plan channel.
#[derive(Debug, Clone)]
pub struct PlanMessage {
    /// The updated todo list.
    pub todos: Vec<TodoItem>,
    /// Optional metadata about the update.
    pub metadata: Option<PlanMetadata>,
}

pub ghost struct PlanMessageView {
    pub todos: Seq<TodoItemView>,
    pub metadata: Option<PlanMetadataView>,
}

impl View for PlanMessage {
    type V = PlanMessageView;

    open spec fn view(&self) -> PlanMessageView {
        PlanMessageView {
            todos: self.todos@.map_values(|t: TodoItem| t@),
            metadata: match self.metadata {
                Some(ref m) => Some(m@),
                None => None,
            },
        }
    }
}

/// One element of the `plan` array of an `update_plan` tool invocation, as
/// far as the engine reads it: the `step` and `status` fields where they are
/// present and hold text.
#[derive(Debug, Clone)]
pub struct PlanArgEntry {
    /// The `step` field, where present as text.
    pub step: Option<String>,
    /// The `status` field, where present as text.
    pub status: Option<String>,
}

pub ghost struct PlanArgEntryView {
    pub step: Option<Seq<char>>,
    pub status: Option<Seq<char>>,
}

impl View for PlanArgEntry {
    type V = PlanArgEntryView;

    open spec fn view(&self) -> PlanArgEntryView {
        PlanArgEntryView {
            step: match self.step {
                Some(ref s) => Some(s@),
                None => None,
            },
            status: match self.status {
                Some(ref s) => Some(s@),
                None => None,
            },
        }
    }
}

/// The `command` field of a tool invocation's arguments: either one command
/// line of text, or a word list.
#[derive(Debug, Clone)]
pub enum CommandArg {
    /// The command as one piece of text.
    Text(String),
    /// The command as a list of words.
    Words(Vec<String>),
}

pub ghost enum CommandArgView {
    Text(Seq<char>),
    Words(Seq<Seq<char>>),
}

impl View for CommandArg {
    type V = CommandArgView;

    open spec fn view(&self) -> CommandArgView {
        match self {
            CommandArg::Text(s) => CommandArgView::Text(s@),
            CommandArg::Words(ws) => CommandArgView::Words(ws@.map_values(|w: String| w@)),
        }
    }
}

/// The plain-value model of a tool invocation's arguments, holding what the
/// engine reads of them: the `plan` array and the `command` field.
#[derive(Debug, Clone)]
pub struct ToolArguments {
    /// The `plan` field: present iff the arguments hold a `plan` array.
    pub plan: Option<Vec<PlanArgEntry>>,
    /// The `command` field, where present.
    pub command: Option<CommandArg>,
}

pub ghost struct ToolArgumentsView {
    pub plan: Option<Seq<PlanArgEntryView>>,
    pub command: Option<CommandArgView>,
}

impl View for ToolArguments {
    type V = ToolArgumentsView;

    open spec fn view(&self) -> ToolArgumentsView {
        ToolArgumentsView {
            plan: match self.plan {
                Some(ref entries) => Some(entries@.map_values(|e: PlanArgEntry| e@)),
                None => None,
            },
            command: match self.command {
                Some(ref c) => Some(c@),
                None => None,
            },
        }
    }
}

impl ToolArguments {
    /// Arguments with no field of interest: the model of absent arguments.
    pub fn empty() -> (r: ToolArguments)
        ensures
            r@ == (ToolArgumentsView { plan: None, command: None }),
    {
        ToolArguments { plan: None, command: None }
    }
}

/// Different types of output data from the agent.
#[derive(Debug, Clone)]
pub enum OutputData {
    /// Turn has started.
    Start,
    /// Primary message content (the assistant's response).
    Primary(String),
    /// Streaming message delta (partial content).
    PrimaryDelta(String),
    /// Detailed information (tool execution details).
    Detail(String),
    /// Tool execution started.
    ToolStart { tool_name: String, arguments: ToolArguments },
    /// Tool execution completed.
    ToolComplete { tool_name: String, result: String },
    /// Tool output streaming (command output).
    ToolOutput { tool_name: String, output: String },
    /// Reasoning content (for models that support reasoning).
    Reasoning(String),
    /// Todo list update.
    TodoUpdate { todos: Vec<TodoItem> },
    /// Turn completed successfully.
    Completed,
    /// An error occurred.
    Error(OutputError),
}

pub ghost enum OutputDataView {
    Start,
    Primary(Seq<char>),
    PrimaryDelta(Seq<char>),
    Detail(Seq<char>),
    ToolStart { tool_name: Seq<char>, arguments: ToolArgumentsView },
    ToolComplete { tool_name: Seq<char>, result: Seq<char> },
    ToolOutput { tool_name: Seq<char>, output: Seq<char> },
    Reasoning(Seq<char>),
    TodoUpdate { todos: Seq<TodoItemView> },
    Completed,
    Error(OutputErrorView),
}

impl View for OutputData {
    type V = OutputDataView;

    open spec fn view(&self) -> OutputDataView {
        match self {
            OutputData::Start => OutputDataView::Start,
            OutputData::Primary(s) => OutputDataView::Primary(s@),
            OutputData::PrimaryDelta(s) => OutputDataView::PrimaryDelta(s@),
            OutputData::Detail(s) => OutputDataView::Detail(s@),
            OutputData::ToolStart { tool_name, arguments } => OutputDataView::ToolStart {
                tool_name: tool_name@,
                arguments: arguments@,
            },
            OutputData::ToolComplete { tool_name, result } => OutputDataView::ToolComplete {
                tool_name: tool_name@,
                result: result@,
            },
            OutputData::ToolOutput { tool_name, output } => OutputDataView::ToolOutput {
                tool_name: tool_name@,
                output: output@,
            },
            OutputData::Reasoning(s) => OutputDataView::Reasoning(s@),
            OutputData::TodoUpdate { todos } => OutputDataView::TodoUpdate {
                todos: todos@.map_values(|t: TodoItem| t@),
            },
            OutputData::Completed => OutputDataView::Completed,
            OutputData::Error(e) => OutputDataView::Error(e@),
        }
    }
}

impl OutputDataView {
    /// Whether this output ends a turn: `Completed` or `Error`.
    pub open spec fn is_terminal(self) -> bool {
        self is Completed || self is Error
    }

    /// Whether this output reports an error.
    pub open spec fn is_error(self) -> bool {
        self is Error
    }
}

impl OutputData {
    /// Check if this is a terminal state.
    pub fn is_terminal(&self) -> (r: bool)
        ensures
            r == self@.is_terminal(),
    {
        match self {
            OutputData::Completed => true,
            OutputData::Error(_) => true,
            _ => false,
        }
    }

    /// Check if this is an error.
    pub fn is_error(&self) -> (r: bool)
        ensures
            r == self@.is_error(),
    {
        match self {
            OutputData::Error(_) => true,
            _ => false,
        }
    }
}

/// Output message from the agent.
#[derive(Debug, Clone)]
pub struct OutputMessage {
    /// Turn ID: the count of completed turns when this message was produced.
    pub turn_id: u64,
    /// The output data.
    pub data: OutputData,
}

pub ghost struct OutputMessageView {
    pub turn_id: u64,
    pub data: OutputDataView,
}

impl View for OutputMessage {
    type V = OutputMessageView;

    open spec fn view(&self) -> OutputMessageView {
        OutputMessageView { turn_id: self.turn_id, data: self.data@ }
    }
}

} // verus!
