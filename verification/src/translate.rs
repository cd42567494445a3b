//! The event translator: a pure mapping from backend events to the output
//! vocabulary, stateful only in the turn counter.
//!
//! The backend produces a totally ordered event stream; the embedding
//! application converts each event into [`BackendEvent`], the plain-value
//! model of that vocabulary, and feeds it through [`EventTranslator`]. Each
//! event yields zero or more output messages and at most one plan message,
//! in a fixed order; the translation is a function of the event and the
//! turn counter alone.

use vstd::prelude::*;
use vstd::string::StrSliceExecFns;
use vstd::string::StringExecFns;

use crate::error::BackendError;
use crate::error::OutputError;
use crate::error::OutputErrorView;
use crate::error::spec_output_error_of_backend;
use crate::message::OutputData;
use crate::message::OutputDataView;
use crate::message::OutputMessage;
use crate::message::OutputMessageView;
use crate::message::PlanArgEntry;
use crate::message::PlanArgEntryView;
use crate::message::PlanMessage;
use crate::message::PlanMessageView;
use crate::message::PlanMetadata;
use crate::message::PlanMetadataView;
use crate::message::TodoItem;
use crate::message::TodoItemView;
use crate::message::TodoStatus;
use crate::message::ToolArguments;
use crate::message::ToolArgumentsView;
use crate::message::CommandArg;
use crate::message::CommandArgView;

verus! {

/// One step of an explicit plan update pushed by the backend.
#[derive(Debug, Clone)]
pub struct PlanStep {
    /// The step's description.
    pub step: String,
    /// The step's status.
    pub status: PlanStepStatus,
}

/// The status vocabulary of an explicit plan update.
#[derive(Debug, Clone, Copy, PartialEq, Eq, Structural)]
pub enum PlanStepStatus {
    Pending,
    InProgress,
    Completed,
}

pub ghost struct PlanStepView {
    pub step: Seq<char>,
    pub status: PlanStepStatus,
}

impl View for PlanStep {
    type V = PlanStepView;

    open spec fn view(&self) -> PlanStepView {
        PlanStepView { step: self.step@, status: self.status }
    }
}

/// The plain-value model of the backend's event vocabulary, as far as the
/// engine translates it. Anything the engine ignores arrives as `Other`.
#[derive(Debug)]
pub enum BackendEvent {
    /// The session is configured and started.
    SessionConfigured,
    /// A full assistant message.
    AgentMessage { message: String },
    /// An incremental assistant message fragment.
    AgentMessageDelta { delta: String },
    /// A reasoning trace.
    AgentReasoning { text: String },
    /// A tool invocation begun, with its arguments where present.
    McpToolCallBegin { tool: String, arguments: Option<ToolArguments> },
    /// A tool invocation ended: on success, the text of the first content
    /// block of the result where it is text; on failure, the backend's
    /// error rendered as text.
    McpToolCallEnd {
        tool: String,
        arguments: Option<ToolArguments>,
        result: Result<Option<String>, String>,
    },
    /// A command execution begun.
    ExecCommandBegin { command: Vec<String> },
    /// A chunk of command output, as raw bytes.
    ExecCommandOutputDelta { chunk: Vec<u8> },
    /// A command execution ended.
    ExecCommandEnd { exit_code: i32 },
    /// The current task or turn is complete.
    TaskComplete,
    /// A backend-reported error.
    Error { message: String },
    /// The current turn was aborted.
    TurnAborted,
    /// An explicit, authoritative plan update.
    PlanUpdate { explanation: Option<String>, plan: Vec<PlanStep> },
    /// Any event kind the engine does not translate.
    Other,
}

pub ghost enum BackendEventView {
    SessionConfigured,
    AgentMessage { message: Seq<char> },
    AgentMessageDelta { delta: Seq<char> },
    AgentReasoning { text: Seq<char> },
    McpToolCallBegin { tool: Seq<char>, arguments: Option<ToolArgumentsView> },
    McpToolCallEnd {
        tool: Seq<char>,
        arguments: Option<ToolArgumentsView>,
        result: Result<Option<Seq<char>>, Seq<char>>,
    },
    ExecCommandBegin { command: Seq<Seq<char>> },
    ExecCommandOutputDelta { chunk: Seq<u8> },
    ExecCommandEnd { exit_code: i32 },
    TaskComplete,
    Error { message: Seq<char> },
    TurnAborted,
    PlanUpdate { explanation: Option<Seq<char>>, plan: Seq<PlanStepView> },
    Other,
}

impl View for BackendEvent {
    type V = BackendEventView;

    open spec fn view(&self) -> BackendEventView {
        match self {
            BackendEvent::SessionConfigured => BackendEventView::SessionConfigured,
            BackendEvent::AgentMessage { message } => BackendEventView::AgentMessage {
                message: message@,
            },
            BackendEvent::AgentMessageDelta { delta } => BackendEventView::AgentMessageDelta {
                delta: delta@,
            },
            BackendEvent::AgentReasoning { text } => BackendEventView::AgentReasoning {
                text: text@,
            },
            BackendEvent::McpToolCallBegin { tool, arguments } => {
                BackendEventView::McpToolCallBegin {
                    tool: tool@,
                    arguments: match arguments {
                        Some(a) => Some(a@),
                        None => None,
                    },
                }
            },
            BackendEvent::McpToolCallEnd { tool, arguments, result } => {
                BackendEventView::McpToolCallEnd {
                    tool: tool@,
                    arguments: match arguments {
                        Some(a) => Some(a@),
                        None => None,
                    },
                    result: match result {
                        Ok(Some(t)) => Ok(Some(t@)),
                        Ok(None) => Ok(None),
                        Err(m) => Err(m@),
                    },
                }
            },
            BackendEvent::ExecCommandBegin { command } => BackendEventView::ExecCommandBegin {
                command: command@.map_values(|w: String| w@),
            },
            BackendEvent::ExecCommandOutputDelta { chunk } => {
                BackendEventView::ExecCommandOutputDelta { chunk: chunk@ }
            },
            BackendEvent::ExecCommandEnd { exit_code } => BackendEventView::ExecCommandEnd {
                exit_code: *exit_code,
            },
            BackendEvent::TaskComplete => BackendEventView::TaskComplete,
            BackendEvent::Error { message } => BackendEventView::Error { message: message@ },
            BackendEvent::TurnAborted => BackendEventView::TurnAborted,
            BackendEvent::PlanUpdate { explanation, plan } => BackendEventView::PlanUpdate {
                explanation: match explanation {
                    Some(e) => Some(e@),
                    None => None,
                },
                plan: plan@.map_values(|s: PlanStep| s@),
            },
            BackendEvent::Other => BackendEventView::Other,
        }
    }
}

/// What `String::from_utf8_lossy` decodes a byte sequence to.
pub uninterp spec fn utf8_lossy_of(bytes: Seq<u8>) -> Seq<char>;

/// Relies on `String::from_utf8_lossy`: decodes UTF-8 best-effort, the
/// result depending on the bytes alone; invalid sequences are replaced with
/// the replacement character, never a fault, and an empty input stays empty.
#[verifier::external_body]
pub(crate) fn utf8_lossy(bytes: &Vec<u8>) -> (r: String)
    ensures
        r@ == utf8_lossy_of(bytes@),
        bytes@.len() == 0 ==> r@.len() == 0,
{
    String::from_utf8_lossy(bytes.as_slice()).to_string()
}

/// Relies on `String::push`: appends exactly the one character.
#[verifier::external_body]
fn push_char(s: &mut String, c: char)
    ensures
        final(s)@ == old(s)@.push(c),
{
    s.push(c);
}

/// The decimal digit characters of a number, most significant first.
pub open spec fn spec_dec_digits(n: nat) -> Seq<char>
    decreases n,
{
    if n < 10 {
        seq![spec_digit_char(n)]
    } else {
        spec_dec_digits(n / 10) + seq![spec_digit_char(n % 10)]
    }
}

/// The character for one decimal digit.
pub open spec fn spec_digit_char(d: nat) -> char {
    if d == 0 {
        '0'
    } else if d == 1 {
        '1'
    } else if d == 2 {
        '2'
    } else if d == 3 {
        '3'
    } else if d == 4 {
        '4'
    } else if d == 5 {
        '5'
    } else if d == 6 {
        '6'
    } else if d == 7 {
        '7'
    } else if d == 8 {
        '8'
    } else {
        '9'
    }
}

/// The decimal rendering of a signed number: a minus sign where negative.
pub open spec fn spec_dec_int(v: int) -> Seq<char> {
    if v < 0 {
        seq!['-'] + spec_dec_digits((-v) as nat)
    } else {
        spec_dec_digits(v as nat)
    }
}

fn digit_char(d: u64) -> (c: char)
    requires
        d < 10,
    ensures
        c == spec_digit_char(d as nat),
{
    if d == 0 {
        '0'
    } else if d == 1 {
        '1'
    } else if d == 2 {
        '2'
    } else if d == 3 {
        '3'
    } else if d == 4 {
        '4'
    } else if d == 5 {
        '5'
    } else if d == 6 {
        '6'
    } else if d == 7 {
        '7'
    } else if d == 8 {
        '8'
    } else {
        '9'
    }
}

/// Render a number in decimal.
pub fn u64_to_string(n: u64) -> (r: String)
    ensures
        r@ == spec_dec_digits(n as nat),
{
    let mut digits: Vec<char> = Vec::new();
    let mut m: u64 = n;
    loop
        invariant_except_break
            spec_dec_digits(n as nat) =~= spec_dec_digits(m as nat) + digits@,
        ensures
            spec_dec_digits(n as nat) == digits@,
        decreases m,
    {
        let d = digit_char(m % 10);
        digits.insert(0, d);
        if m < 10 {
            proof {
                assert(spec_dec_digits(n as nat) =~= digits@);
            }
            break;
        }
        m = m / 10;
        proof {
            assert(spec_dec_digits(n as nat) =~= spec_dec_digits(m as nat) + digits@);
        }
    }
    let mut r = String::new();
    let mut i: usize = 0;
    while i < digits.len()
        invariant
            i <= digits.len(),
            r@ == digits@.take(i as int),
        decreases digits.len() - i,
    {
        push_char(&mut r, digits[i]);
        i = i + 1;
        proof {
            assert(r@ =~= digits@.take(i as int));
        }
    }
    proof {
        assert(digits@.take(digits@.len() as int) =~= digits@);
    }
    r
}

/// Render a signed number in decimal.
pub fn i32_to_string(v: i32) -> (r: String)
    ensures
        r@ == spec_dec_int(v as int),
{
    if v >= 0 {
        u64_to_string(v as u64)
    } else {
        let wide: i64 = v as i64;
        let magnitude: u64 = (-wide) as u64;
        let mut r = String::from_str("-");
        let rest = u64_to_string(magnitude);
        r.append(rest.as_str());
        proof {
            reveal_strlit("-");
            assert("-"@ =~= seq!['-']);
            assert(r@ =~= seq!['-'] + spec_dec_digits((-(v as int)) as nat));
        }
        r
    }
}

/// How a textual status maps into the todo vocabulary: anything unknown is
/// pending.
pub open spec fn spec_status_of(s: Seq<char>) -> TodoStatus {
    if s == "in_progress"@ {
        TodoStatus::InProgress
    } else if s == "completed"@ {
        TodoStatus::Completed
    } else {
        TodoStatus::Pending
    }
}

fn status_of(s: &String) -> (r: TodoStatus)
    ensures
        r == spec_status_of(s@),
{
    if s.eq(&String::from_str("in_progress")) {
        TodoStatus::InProgress
    } else if s.eq(&String::from_str("completed")) {
        TodoStatus::Completed
    } else {
        TodoStatus::Pending
    }
}

/// The todo list parsed out of a `plan` array: entries that hold both a
/// step and a status become items in order, all others are skipped.
pub open spec fn spec_parse_plan(entries: Seq<PlanArgEntryView>) -> Seq<TodoItemView>
    decreases entries.len(),
{
    if entries.len() == 0 {
        Seq::<TodoItemView>::empty()
    } else {
        let init = spec_parse_plan(entries.drop_last());
        match (entries.last().step, entries.last().status) {
            (Some(step), Some(status)) => init + seq![
                TodoItemView { content: step, status: spec_status_of(status) },
            ],
            _ => init,
        }
    }
}

/// Parse the todo list out of the entries of a `plan` array.
pub fn parse_plan(entries: &Vec<PlanArgEntry>) -> (r: Vec<TodoItem>)
    ensures
        r@.map_values(|t: TodoItem| t@) == spec_parse_plan(
            entries@.map_values(|e: PlanArgEntry| e@),
        ),
{
    let ghost views = entries@.map_values(|e: PlanArgEntry| e@);
    let mut todos: Vec<TodoItem> = Vec::new();
    let mut i: usize = 0;
    proof {
        assert(todos@.map_values(|t: TodoItem| t@) =~= spec_parse_plan(views.take(0)));
    }
    while i < entries.len()
        invariant
            i <= entries.len(),
            views == entries@.map_values(|e: PlanArgEntry| e@),
            views.len() == entries@.len(),
            todos@.map_values(|t: TodoItem| t@) == spec_parse_plan(views.take(i as int)),
        decreases entries.len() - i,
    {
        proof {
            assert(views.take(i as int + 1).drop_last() =~= views.take(i as int));
            assert(views.take(i as int + 1).last() == views[i as int]);
        }
        match (&entries[i].step, &entries[i].status) {
            (Some(step), Some(status)) => {
                let item = TodoItem { content: step.clone(), status: status_of(status) };
                todos.push(item);
            },
            _ => {},
        }
        i = i + 1;
        proof {
            assert(todos@.map_values(|t: TodoItem| t@) =~= spec_parse_plan(
                views.take(i as int),
            ));
        }
    }
    proof {
        assert(views.take(views.len() as int) =~= views);
    }
    todos
}

/// The plan message a tool invocation yields: present iff the tool is
/// `update_plan` and its arguments hold a `plan` array, whatever the tool's
/// own outcome.
pub open spec fn spec_plan_for_update(
    tool: Seq<char>,
    arguments: Option<ToolArgumentsView>,
    turn_id: u64,
    description: Seq<char>,
) -> Option<PlanMessageView> {
    match arguments {
        Some(a) => match a.plan {
            Some(entries) => if tool == "update_plan"@ {
                Some(
                    PlanMessageView {
                        todos: spec_parse_plan(entries),
                        metadata: Some(
                            PlanMetadataView { turn_id, description: Some(description) },
                        ),
                    },
                )
            } else {
                None
            },
            None => None,
        },
        None => None,
    }
}

fn derive_plan_message(
    tool: &String,
    arguments: &Option<ToolArguments>,
    turn_id: u64,
    description: &str,
) -> (r: Option<PlanMessage>)
    ensures
        match spec_plan_for_update(
            tool@,
            match arguments {
                Some(a) => Some(a@),
                None => None,
            },
            turn_id,
            description@,
        ) {
            Some(pv) => r matches Some(p) && p@ == pv,
            None => r is None,
        },
{
    if tool.eq(&String::from_str("update_plan")) {
        match arguments {
            Some(args) => match &args.plan {
                Some(entries) => {
                    let todos = parse_plan(entries);
                    Some(
                        PlanMessage {
                            todos,
                            metadata: Some(
                                PlanMetadata {
                                    turn_id,
                                    description: Some(String::from_str(description)),
                                },
                            ),
                        },
                    )
                },
                None => None,
            },
            None => None,
        }
    } else {
        None
    }
}

/// What one translation step yields: the outputs in order, at most one plan
/// message, and the turn counter to carry forward.
pub ghost struct TranslationView {
    pub outputs: Seq<OutputMessageView>,
    pub plan: Option<PlanMessageView>,
    pub next_turn_id: u64,
}

/// The full translation table: what each backend event yields under a given
/// turn counter. Every output carries the incoming turn id; only a task
/// completion moves the counter, and its output still carries the
/// pre-increment id.
pub open spec fn spec_translate(ev: BackendEventView, turn_id: u64) -> TranslationView {
    let keep = TranslationView { outputs: Seq::empty(), plan: None, next_turn_id: turn_id };
    match ev {
        BackendEventView::SessionConfigured => TranslationView {
            outputs: seq![OutputMessageView { turn_id, data: OutputDataView::Start }],
            ..keep
        },
        BackendEventView::AgentMessage { message } => TranslationView {
            outputs: seq![
                OutputMessageView { turn_id, data: OutputDataView::Primary(message) },
            ],
            ..keep
        },
        BackendEventView::AgentMessageDelta { delta } => TranslationView {
            outputs: seq![
                OutputMessageView { turn_id, data: OutputDataView::PrimaryDelta(delta) },
            ],
            ..keep
        },
        BackendEventView::AgentReasoning { text } => TranslationView {
            outputs: seq![
                OutputMessageView { turn_id, data: OutputDataView::Reasoning(text) },
            ],
            ..keep
        },
        BackendEventView::McpToolCallBegin { tool, arguments } => TranslationView {
            outputs: seq![
                OutputMessageView {
                    turn_id,
                    data: OutputDataView::ToolStart {
                        tool_name: tool,
                        arguments: match arguments {
                            Some(a) => a,
                            None => ToolArgumentsView { plan: None, command: None },
                        },
                    },
                },
            ],
            plan: spec_plan_for_update(
                tool,
                arguments,
                turn_id,
                "Plan updated via update_plan tool"@,
            ),
            ..keep
        },
        BackendEventView::McpToolCallEnd { tool, arguments, result } => TranslationView {
            outputs: seq![
                OutputMessageView {
                    turn_id,
                    data: OutputDataView::ToolComplete {
                        tool_name: tool,
                        result: match result {
                            Ok(Some(text)) => text,
                            Ok(None) => Seq::empty(),
                            Err(message) => "Error: "@ + message,
                        },
                    },
                },
            ],
            plan: spec_plan_for_update(
                tool,
                arguments,
                turn_id,
                "Plan completed via update_plan tool"@,
            ),
            ..keep
        },
        BackendEventView::ExecCommandBegin { command } => TranslationView {
            outputs: seq![
                OutputMessageView {
                    turn_id,
                    data: OutputDataView::ToolStart {
                        tool_name: "shell"@,
                        arguments: ToolArgumentsView {
                            plan: None,
                            command: Some(CommandArgView::Words(command)),
                        },
                    },
                },
            ],
            ..keep
        },
        BackendEventView::ExecCommandOutputDelta { chunk } => TranslationView {
            outputs: seq![
                OutputMessageView {
                    turn_id,
                    data: OutputDataView::ToolOutput {
                        tool_name: "shell"@,
                        output: utf8_lossy_of(chunk),
                    },
                },
            ],
            ..keep
        },
        BackendEventView::ExecCommandEnd { exit_code } => TranslationView {
            outputs: seq![
                OutputMessageView {
                    turn_id,
                    data: OutputDataView::ToolComplete {
                        tool_name: "shell"@,
                        result: "exit code: "@ + spec_dec_int(exit_code as int),
                    },
                },
            ],
            ..keep
        },
        BackendEventView::TaskComplete => TranslationView {
            outputs: seq![OutputMessageView { turn_id, data: OutputDataView::Completed }],
            plan: None,
            next_turn_id: (turn_id + 1) as u64,
        },
        BackendEventView::Error { message } => TranslationView {
            outputs: seq![
                OutputMessageView {
                    turn_id,
                    data: OutputDataView::Error(OutputErrorView::Unknown(message)),
                },
            ],
            ..keep
        },
        BackendEventView::TurnAborted => TranslationView {
            outputs: seq![
                OutputMessageView {
                    turn_id,
                    data: OutputDataView::Error(OutputErrorView::Interrupted),
                },
            ],
            ..keep
        },
        BackendEventView::PlanUpdate { explanation, plan } => TranslationView {
            outputs: Seq::empty(),
            plan: Some(
                PlanMessageView {
                    todos: plan.map_values(
                        |s: PlanStepView| TodoItemView {
                            content: s.step,
                            status: spec_todo_of_plan_step(s.status),
                        },
                    ),
                    metadata: Some(
                        PlanMetadataView { turn_id, description: explanation },
                    ),
                },
            ),
            next_turn_id: turn_id,
        },
        BackendEventView::Other => keep,
    }
}

/// How an explicit plan update's status vocabulary maps into the todo one.
pub open spec fn spec_todo_of_plan_step(s: PlanStepStatus) -> TodoStatus {
    match s {
        PlanStepStatus::Pending => TodoStatus::Pending,
        PlanStepStatus::InProgress => TodoStatus::InProgress,
        PlanStepStatus::Completed => TodoStatus::Completed,
    }
}

/// The event translator: pure but for the turn counter, which counts the
/// task completions observed so far.
#[derive(Debug, Clone, Copy, PartialEq, Eq, Structural)]
pub struct EventTranslator {
    /// The count of completed turns observed so far.
    pub turn_id: u64,
}

impl EventTranslator {
    /// A translator at the start of a session: no turn completed yet.
    pub fn new() -> (r: EventTranslator)
        ensures
            r.turn_id == 0,
    {
        EventTranslator { turn_id: 0 }
    }

    /// Translate one backend event into its outputs and plan message, as
    /// the translation table states, and advance the turn counter.
    pub fn translate(&mut self, ev: BackendEvent) -> (r: (Vec<OutputMessage>, Option<PlanMessage>))
        requires
            old(self).turn_id < u64::MAX,
        ensures
            final(self).turn_id == spec_translate(ev@, old(self).turn_id).next_turn_id,
            r.0@.map_values(|m: OutputMessage| m@) == spec_translate(
                ev@,
                old(self).turn_id,
            ).outputs,
            match spec_translate(ev@, old(self).turn_id).plan {
                Some(pv) => r.1 matches Some(p) && p@ == pv,
                None => r.1 is None,
            },
    {
        let turn_id = self.turn_id;
        let ghost goal = spec_translate(ev@, turn_id);
        let (outputs, plan): (Vec<OutputMessage>, Option<PlanMessage>) = match ev {
            BackendEvent::SessionConfigured => {
                (vec![OutputMessage { turn_id, data: OutputData::Start }], None)
            },
            BackendEvent::AgentMessage { message } => {
                (vec![OutputMessage { turn_id, data: OutputData::Primary(message) }], None)
            },
            BackendEvent::AgentMessageDelta { delta } => {
                (vec![OutputMessage { turn_id, data: OutputData::PrimaryDelta(delta) }], None)
            },
            BackendEvent::AgentReasoning { text } => {
                (vec![OutputMessage { turn_id, data: OutputData::Reasoning(text) }], None)
            },
            BackendEvent::McpToolCallBegin { tool, arguments } => {
                let plan = derive_plan_message(
                    &tool,
                    &arguments,
                    turn_id,
                    "Plan updated via update_plan tool",
                );
                let args = match arguments {
                    Some(a) => a,
                    None => ToolArguments::empty(),
                };
                (
                    vec![
                        OutputMessage {
                            turn_id,
                            data: OutputData::ToolStart { tool_name: tool, arguments: args },
                        },
                    ],
                    plan,
                )
            },
            BackendEvent::McpToolCallEnd { tool, arguments, result } => {
                let plan = derive_plan_message(
                    &tool,
                    &arguments,
                    turn_id,
                    "Plan completed via update_plan tool",
                );
                let result_text: String = match result {
                    Ok(Some(text)) => text,
                    Ok(None) => String::new(),
                    Err(message) => crate::error::concat_prefix("Error: ", &message),
                };
                (
                    vec![
                        OutputMessage {
                            turn_id,
                            data: OutputData::ToolComplete {
                                tool_name: tool,
                                result: result_text,
                            },
                        },
                    ],
                    plan,
                )
            },
            BackendEvent::ExecCommandBegin { command } => {
                (
                    vec![
                        OutputMessage {
                            turn_id,
                            data: OutputData::ToolStart {
                                tool_name: String::from_str("shell"),
                                arguments: ToolArguments {
                                    plan: None,
                                    command: Some(CommandArg::Words(command)),
                                },
                            },
                        },
                    ],
                    None,
                )
            },
            BackendEvent::ExecCommandOutputDelta { chunk } => {
                let output = utf8_lossy(&chunk);
                (
                    vec![
                        OutputMessage {
                            turn_id,
                            data: OutputData::ToolOutput {
                                tool_name: String::from_str("shell"),
                                output,
                            },
                        },
                    ],
                    None,
                )
            },
            BackendEvent::ExecCommandEnd { exit_code } => {
                let mut result = String::from_str("exit code: ");
                let rendered = i32_to_string(exit_code);
                result.append(rendered.as_str());
                (
                    vec![
                        OutputMessage {
                            turn_id,
                            data: OutputData::ToolComplete {
                                tool_name: String::from_str("shell"),
                                result,
                            },
                        },
                    ],
                    None,
                )
            },
            BackendEvent::TaskComplete => {
                self.turn_id = self.turn_id + 1;
                (vec![OutputMessage { turn_id, data: OutputData::Completed }], None)
            },
            BackendEvent::Error { message } => {
                (
                    vec![
                        OutputMessage {
                            turn_id,
                            data: OutputData::Error(OutputError::Unknown(message)),
                        },
                    ],
                    None,
                )
            },
            BackendEvent::TurnAborted => {
                (
                    vec![
                        OutputMessage {
                            turn_id,
                            data: OutputData::Error(OutputError::Interrupted),
                        },
                    ],
                    None,
                )
            },
            BackendEvent::PlanUpdate { explanation, plan } => {
                let todos = todos_of_plan_steps(&plan);
                (
                    Vec::new(),
                    Some(
                        PlanMessage {
                            todos,
                            metadata: Some(PlanMetadata { turn_id, description: explanation }),
                        },
                    ),
                )
            },
            BackendEvent::Other => (Vec::new(), None),
        };
        proof {
            assert(outputs@.map_values(|m: OutputMessage| m@) =~= goal.outputs);
        }
        (outputs, plan)
    }

    /// The one terminal output of the event activity when the backend fails
    /// to yield a next event, tagged with the current turn id.
    pub fn backend_failure_output(&self, e: BackendError) -> (r: OutputMessage)
        ensures
            r@ == (OutputMessageView {
                turn_id: self.turn_id,
                data: OutputDataView::Error(spec_output_error_of_backend(e@)),
            }),
    {
        OutputMessage {
            turn_id: self.turn_id,
            data: OutputData::Error(OutputError::from_backend(e)),
        }
    }
}

fn todos_of_plan_steps(plan: &Vec<PlanStep>) -> (r: Vec<TodoItem>)
    ensures
        r@.map_values(|t: TodoItem| t@) == plan@.map_values(|s: PlanStep| s@).map_values(
            |s: PlanStepView| TodoItemView {
                content: s.step,
                status: spec_todo_of_plan_step(s.status),
            },
        ),
{
    let mut todos: Vec<TodoItem> = Vec::new();
    let mut i: usize = 0;
    while i < plan.len()
        invariant
            i <= plan.len(),
            todos@.len() == i,
            forall|j: int|
                0 <= j < i ==> todos@.map_values(|t: TodoItem| t@)[j] == (TodoItemView {
                    content: plan@[j]@.step,
                    status: spec_todo_of_plan_step(plan@[j]@.status),
                }),
        decreases plan.len() - i,
    {
        let status = match plan[i].status {
            PlanStepStatus::Pending => TodoStatus::Pending,
            PlanStepStatus::InProgress => TodoStatus::InProgress,
            PlanStepStatus::Completed => TodoStatus::Completed,
        };
        todos.push(TodoItem { content: plan[i].step.clone(), status });
        i = i + 1;
    }
    proof {
        assert(todos@.map_values(|t: TodoItem| t@) =~= plan@.map_values(|s: PlanStep| s@)
            .map_values(
            |s: PlanStepView| TodoItemView {
                content: s.step,
                status: spec_todo_of_plan_step(s.status),
            },
        ));
    }
    todos
}

/// The turn counter after a run of events.
pub open spec fn spec_turn_after(events: Seq<BackendEventView>, turn_id: u64) -> u64
    decreases events.len(),
{
    if events.len() == 0 {
        turn_id
    } else {
        spec_turn_after(events.drop_first(), spec_translate(events[0], turn_id).next_turn_id)
    }
}

/// The count of task completions in a run of events.
pub open spec fn spec_count_completed(events: Seq<BackendEventView>) -> nat
    decreases events.len(),
{
    if events.len() == 0 {
        0
    } else {
        (if events[0] is TaskComplete {
            1nat
        } else {
            0nat
        }) + spec_count_completed(events.drop_first())
    }
}

/// The turn id numbering invariant: after any run of events, the turn
/// counter is exactly the count of task completions observed, on top of
/// where it started.
pub proof fn lemma_turn_id_counts_completions(events: Seq<BackendEventView>, turn_id: u64)
    requires
        turn_id + spec_count_completed(events) <= u64::MAX,
    ensures
        spec_turn_after(events, turn_id) == turn_id + spec_count_completed(events),
    decreases events.len(),
{
    if events.len() > 0 {
        let next = spec_translate(events[0], turn_id).next_turn_id;
        lemma_turn_id_counts_completions(events.drop_first(), next);
    }
}

/// The turn counter never moves backwards: output turn ids are
/// non-decreasing across a stream.
pub proof fn lemma_turn_id_monotonic(ev: BackendEventView, turn_id: u64)
    requires
        turn_id < u64::MAX,
    ensures
        spec_translate(ev, turn_id).next_turn_id >= turn_id,
{
}

/// Every output of one translation step carries the incoming turn id: all
/// outputs within one turn are tagged alike, and a completion's output
/// carries the pre-increment id.
pub proof fn lemma_outputs_carry_current_turn(ev: BackendEventView, turn_id: u64)
    ensures
        forall|i: int|
            0 <= i < spec_translate(ev, turn_id).outputs.len() ==> spec_translate(
                ev,
                turn_id,
            ).outputs[i].turn_id == turn_id,
{
}

/// An `update_plan` tool invocation yields a plan message from its begin
/// event and again from its end event, each with the todo list parsed from
/// the arguments — for the end event whatever the tool's reported result,
/// success or failure.
pub proof fn lemma_update_plan_emits_plan_on_begin_and_end(
    arguments: Option<ToolArgumentsView>,
    result: Result<Option<Seq<char>>, Seq<char>>,
    entries: Seq<PlanArgEntryView>,
    turn_id: u64,
)
    requires
        arguments matches Some(a) && a.plan == Some(entries),
    ensures
        spec_translate(
            BackendEventView::McpToolCallBegin { tool: "update_plan"@, arguments },
            turn_id,
        ).plan matches Some(p) && p.todos == spec_parse_plan(entries),
        spec_translate(
            BackendEventView::McpToolCallEnd { tool: "update_plan"@, arguments, result },
            turn_id,
        ).plan matches Some(p) && p.todos == spec_parse_plan(entries),
{
}

} // verus!

