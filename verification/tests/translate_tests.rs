//! Tests for the event translator: the event-to-output table, turn
//! numbering, plan extraction, and the end-to-end scenario.

use codex_agent_lib::control::AgentState;
use codex_agent_lib::control::ControlState;
use codex_agent_lib::engine::record_submission;
use codex_agent_lib::engine::submission_gate;
use codex_agent_lib::engine::InputDirective;
use codex_agent_lib::error::BackendError;
use codex_agent_lib::error::OutputError;
use codex_agent_lib::message::OutputData;
use codex_agent_lib::message::PlanArgEntry;
use codex_agent_lib::message::TodoStatus;
use codex_agent_lib::message::ToolArguments;
use codex_agent_lib::translate::i32_to_string;
use codex_agent_lib::translate::parse_plan;
use codex_agent_lib::translate::u64_to_string;
use codex_agent_lib::translate::BackendEvent;
use codex_agent_lib::translate::EventTranslator;
use codex_agent_lib::translate::PlanStep;
use codex_agent_lib::translate::PlanStepStatus;

fn plan_args() -> ToolArguments {
    ToolArguments {
        plan: Some(vec![
            PlanArgEntry {
                step: Some("write code".to_string()),
                status: Some("in_progress".to_string()),
            },
            PlanArgEntry { step: Some("test it".to_string()), status: Some("pending".to_string()) },
        ]),
        command: None,
    }
}

#[test]
fn test_scenario_single_turn_session() {
    // One input, backend emits start / answer / completion, stream closes.
    let mut ctl = ControlState::new();
    ctl.begin().unwrap();
    assert_eq!(ctl.state(), AgentState::Running);

    assert_eq!(submission_gate(&ctl, 100), InputDirective::Proceed);
    assert!(record_submission(&mut ctl, Ok(())).is_none());

    let mut translator = EventTranslator::new();
    let mut outputs = Vec::new();
    for ev in [
        BackendEvent::SessionConfigured,
        BackendEvent::AgentMessage { message: "4".to_string() },
        BackendEvent::TaskComplete,
    ] {
        let (outs, plan) = translator.translate(ev);
        assert!(plan.is_none());
        outputs.extend(outs);
    }

    assert_eq!(outputs.len(), 3);
    assert_eq!(outputs[0].turn_id, 0);
    assert!(matches!(outputs[0].data, OutputData::Start));
    assert_eq!(outputs[1].turn_id, 0);
    assert!(matches!(outputs[1].data, OutputData::Primary(ref t) if t == "4"));
    assert_eq!(outputs[2].turn_id, 0);
    assert!(matches!(outputs[2].data, OutputData::Completed));
    assert_eq!(translator.turn_id, 1);

    // Input stream exhausted: the loop shuts down.
    ctl.stop();
    assert_eq!(ctl.turn_count(), 1);
    assert_eq!(ctl.state(), AgentState::Stopped);
}

#[test]
fn test_translation_is_deterministic() {
    let make_events = || {
        vec![
            BackendEvent::SessionConfigured,
            BackendEvent::AgentMessageDelta { delta: "he".to_string() },
            BackendEvent::AgentMessageDelta { delta: "llo".to_string() },
            BackendEvent::TaskComplete,
            BackendEvent::AgentReasoning { text: "next".to_string() },
            BackendEvent::TaskComplete,
        ]
    };
    let run = || {
        let mut translator = EventTranslator::new();
        let mut log: Vec<(u64, String)> = Vec::new();
        for ev in make_events() {
            let (outs, _) = translator.translate(ev);
            for m in outs {
                log.push((m.turn_id, format!("{:?}", m.data)));
            }
        }
        (translator.turn_id, log)
    };
    assert_eq!(run(), run());
}

#[test]
fn test_turn_id_counts_completions() {
    let mut translator = EventTranslator::new();
    let events = [
        BackendEvent::AgentMessage { message: "a".to_string() },
        BackendEvent::TaskComplete,
        BackendEvent::AgentMessage { message: "b".to_string() },
        BackendEvent::TaskComplete,
        BackendEvent::AgentMessage { message: "c".to_string() },
    ];
    let mut turn_ids = Vec::new();
    for ev in events {
        let (outs, _) = translator.translate(ev);
        for m in outs {
            turn_ids.push(m.turn_id);
        }
    }
    assert_eq!(turn_ids, vec![0, 0, 1, 1, 2]);
    assert_eq!(translator.turn_id, 2);
}

#[test]
fn test_update_plan_begin_emits_plan_immediately() {
    let mut translator = EventTranslator::new();
    let (outs, plan) = translator.translate(BackendEvent::McpToolCallBegin {
        tool: "update_plan".to_string(),
        arguments: Some(plan_args()),
    });

    let plan = plan.expect("a plan is emitted on the begin event");
    assert_eq!(plan.todos.len(), 2);
    assert_eq!(plan.todos[0].content, "write code");
    assert!(matches!(plan.todos[0].status, TodoStatus::InProgress));
    assert_eq!(plan.todos[1].content, "test it");
    assert!(matches!(plan.todos[1].status, TodoStatus::Pending));
    let meta = plan.metadata.expect("plan metadata present");
    assert_eq!(meta.turn_id, 0);
    assert_eq!(meta.description.as_deref(), Some("Plan updated via update_plan tool"));

    assert_eq!(outs.len(), 1);
    assert!(
        matches!(outs[0].data, OutputData::ToolStart { ref tool_name, .. } if tool_name == "update_plan")
    );
}

#[test]
fn test_update_plan_end_emits_plan_even_on_tool_failure() {
    let mut translator = EventTranslator::new();
    let (outs, plan) = translator.translate(BackendEvent::McpToolCallEnd {
        tool: "update_plan".to_string(),
        arguments: Some(plan_args()),
        result: Err("tool blew up".to_string()),
    });

    let plan = plan.expect("a plan is emitted on the end event despite failure");
    assert_eq!(plan.todos.len(), 2);
    let meta = plan.metadata.expect("plan metadata present");
    assert_eq!(meta.description.as_deref(), Some("Plan completed via update_plan tool"));

    assert_eq!(outs.len(), 1);
    assert!(matches!(
        outs[0].data,
        OutputData::ToolComplete { ref result, .. } if result == "Error: tool blew up"
    ));
}

#[test]
fn test_tool_end_extracts_first_text_block() {
    let mut translator = EventTranslator::new();
    let (outs, plan) = translator.translate(BackendEvent::McpToolCallEnd {
        tool: "search".to_string(),
        arguments: None,
        result: Ok(Some("found it".to_string())),
    });
    assert!(plan.is_none());
    assert!(matches!(
        outs[0].data,
        OutputData::ToolComplete { ref tool_name, ref result } if tool_name == "search" && result == "found it"
    ));

    let (outs, _) = translator.translate(BackendEvent::McpToolCallEnd {
        tool: "search".to_string(),
        arguments: None,
        result: Ok(None),
    });
    assert!(matches!(outs[0].data, OutputData::ToolComplete { ref result, .. } if result == ""));
}

#[test]
fn test_parse_plan_skips_incomplete_entries() {
    let entries = vec![
        PlanArgEntry { step: Some("keep".to_string()), status: Some("completed".to_string()) },
        PlanArgEntry { step: None, status: Some("pending".to_string()) },
        PlanArgEntry { step: Some("no status".to_string()), status: None },
        PlanArgEntry { step: Some("odd".to_string()), status: Some("blocked".to_string()) },
    ];
    let todos = parse_plan(&entries);
    assert_eq!(todos.len(), 2);
    assert_eq!(todos[0].content, "keep");
    assert!(matches!(todos[0].status, TodoStatus::Completed));
    assert_eq!(todos[1].content, "odd");
    // An unknown status falls back to pending.
    assert!(matches!(todos[1].status, TodoStatus::Pending));
}

#[test]
fn test_command_execution_normalizes_to_shell_tool() {
    let mut translator = EventTranslator::new();

    let (outs, _) = translator.translate(BackendEvent::ExecCommandBegin {
        command: vec!["ls".to_string(), "-la".to_string()],
    });
    assert!(
        matches!(outs[0].data, OutputData::ToolStart { ref tool_name, .. } if tool_name == "shell")
    );

    let (outs, _) = translator.translate(BackendEvent::ExecCommandOutputDelta {
        chunk: b"total 4\n".to_vec(),
    });
    assert!(matches!(
        outs[0].data,
        OutputData::ToolOutput { ref tool_name, ref output } if tool_name == "shell" && output == "total 4\n"
    ));

    let (outs, _) = translator.translate(BackendEvent::ExecCommandEnd { exit_code: 0 });
    assert!(matches!(
        outs[0].data,
        OutputData::ToolComplete { ref tool_name, ref result } if tool_name == "shell" && result == "exit code: 0"
    ));
}

#[test]
fn test_command_output_decodes_bytes_best_effort() {
    let mut translator = EventTranslator::new();
    let (outs, _) = translator.translate(BackendEvent::ExecCommandOutputDelta {
        chunk: vec![0xff, b'o', b'k'],
    });
    assert!(matches!(
        outs[0].data,
        OutputData::ToolOutput { ref output, .. } if output == "\u{FFFD}ok"
    ));
}

#[test]
fn test_negative_exit_code_rendering() {
    let mut translator = EventTranslator::new();
    let (outs, _) = translator.translate(BackendEvent::ExecCommandEnd { exit_code: -9 });
    assert!(
        matches!(outs[0].data, OutputData::ToolComplete { ref result, .. } if result == "exit code: -9")
    );
}

#[test]
fn test_backend_error_events_become_error_outputs() {
    let mut translator = EventTranslator::new();

    let (outs, _) = translator.translate(BackendEvent::Error { message: "boom".to_string() });
    assert!(matches!(
        outs[0].data,
        OutputData::Error(OutputError::Unknown(ref m)) if m == "boom"
    ));

    let (outs, _) = translator.translate(BackendEvent::TurnAborted);
    assert!(matches!(outs[0].data, OutputData::Error(OutputError::Interrupted)));

    let (outs, _) = translator.translate(BackendEvent::Other);
    assert!(outs.is_empty());
}

#[test]
fn test_explicit_plan_update_goes_to_the_plan_stream() {
    let mut translator = EventTranslator::new();
    let (outs, plan) = translator.translate(BackendEvent::PlanUpdate {
        explanation: Some("reprioritized".to_string()),
        plan: vec![
            PlanStep { step: "first".to_string(), status: PlanStepStatus::Completed },
            PlanStep { step: "second".to_string(), status: PlanStepStatus::InProgress },
        ],
    });
    assert!(outs.is_empty());
    let plan = plan.expect("an explicit update always yields a plan message");
    assert_eq!(plan.todos.len(), 2);
    assert!(matches!(plan.todos[0].status, TodoStatus::Completed));
    assert!(matches!(plan.todos[1].status, TodoStatus::InProgress));
    assert_eq!(plan.metadata.unwrap().description.as_deref(), Some("reprioritized"));
}

#[test]
fn test_backend_failure_output_carries_current_turn() {
    let mut translator = EventTranslator::new();
    let _ = translator.translate(BackendEvent::TaskComplete);
    let msg = translator.backend_failure_output(BackendError::Stream("gone".to_string()));
    assert_eq!(msg.turn_id, 1);
    assert!(matches!(
        msg.data,
        OutputData::Error(OutputError::NetworkError(ref m)) if m == "gone"
    ));
}

#[test]
fn test_decimal_rendering() {
    assert_eq!(u64_to_string(0), "0");
    assert_eq!(u64_to_string(7), "7");
    assert_eq!(u64_to_string(1234567890), "1234567890");
    assert_eq!(i32_to_string(-45), "-45");
    assert_eq!(i32_to_string(i32::MIN), "-2147483648");
}
