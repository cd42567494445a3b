//! Tests for the session lifecycle machine and the submission gate.

use codex_agent_lib::control::AgentState;
use codex_agent_lib::control::ControlState;
use codex_agent_lib::engine::collect_response;
use codex_agent_lib::engine::record_submission;
use codex_agent_lib::engine::submission_gate;
use codex_agent_lib::engine::turn_limit_output;
use codex_agent_lib::engine::InputDirective;
use codex_agent_lib::error::AgentError;
use codex_agent_lib::error::BackendError;
use codex_agent_lib::error::OutputError;
use codex_agent_lib::message::OutputData;
use codex_agent_lib::message::OutputMessage;

#[test]
fn test_controller_operations() {
    let mut ctl = ControlState::new();
    assert_eq!(ctl.turn_count(), 0);

    ctl.begin().unwrap();
    assert_eq!(ctl.state(), AgentState::Running);

    ctl.pause();
    assert_eq!(ctl.state(), AgentState::Paused);

    ctl.resume();
    assert_eq!(ctl.state(), AgentState::Running);

    ctl.stop();
    assert_eq!(ctl.state(), AgentState::Stopped);
}

#[test]
fn test_begin_fails_when_already_running() {
    let mut ctl = ControlState::new();
    ctl.begin().unwrap();
    assert!(matches!(ctl.begin(), Err(AgentError::AlreadyRunning)));
    assert_eq!(ctl.state(), AgentState::Running);
}

#[test]
fn test_begin_refuses_terminal_session() {
    let mut ctl = ControlState::new();
    ctl.begin().unwrap();
    ctl.stop();
    assert!(matches!(ctl.begin(), Err(AgentError::NotRunning)));
    assert_eq!(ctl.state(), AgentState::Stopped);
}

#[test]
fn test_stop_is_idempotent() {
    let mut ctl = ControlState::new();
    ctl.begin().unwrap();
    ctl.stop();
    assert_eq!(ctl.state(), AgentState::Stopped);
    ctl.stop();
    assert_eq!(ctl.state(), AgentState::Stopped);
}

#[test]
fn test_terminal_phase_absorbs_all_operations() {
    let mut ctl = ControlState::new();
    ctl.stop();
    ctl.pause();
    assert_eq!(ctl.state(), AgentState::Stopped);
    ctl.resume();
    assert_eq!(ctl.state(), AgentState::Stopped);
    ctl.fail();
    assert_eq!(ctl.state(), AgentState::Stopped);
}

#[test]
fn test_fail_marks_error_phase() {
    let mut ctl = ControlState::new();
    ctl.begin().unwrap();
    ctl.fail();
    assert_eq!(ctl.state(), AgentState::Error);
    ctl.stop();
    assert_eq!(ctl.state(), AgentState::Error);
}

#[test]
fn test_resume_outside_pause_is_a_no_op() {
    let mut ctl = ControlState::new();
    ctl.resume();
    assert_eq!(ctl.state(), AgentState::Initialized);
}

#[test]
fn test_paused_session_blocks_submissions() {
    let mut ctl = ControlState::new();
    ctl.begin().unwrap();
    ctl.pause();
    assert_eq!(submission_gate(&ctl, 10), InputDirective::HoldPaused);
    ctl.resume();
    assert_eq!(submission_gate(&ctl, 10), InputDirective::Proceed);
}

#[test]
fn test_cancellation_wins_over_everything() {
    let mut ctl = ControlState::new();
    ctl.begin().unwrap();
    ctl.pause();
    ctl.stop();
    assert_eq!(submission_gate(&ctl, 10), InputDirective::Shutdown);
}

#[test]
fn test_turn_counter_counts_every_attempt() {
    let mut ctl = ControlState::new();
    ctl.begin().unwrap();

    let ok = record_submission(&mut ctl, Ok(()));
    assert!(ok.is_none());
    assert_eq!(ctl.turn_count(), 1);

    let err = record_submission(&mut ctl, Err(BackendError::Stream("lost".to_string())));
    assert_eq!(ctl.turn_count(), 2);
    let msg = err.expect("a failed submission yields an error output");
    assert_eq!(msg.turn_id, 1);
    assert!(matches!(msg.data, OutputData::Error(OutputError::NetworkError(ref m)) if m == "lost"));
}

#[test]
fn test_turn_limit_emitted_exactly_at_the_limit() {
    let mut ctl = ControlState::new();
    ctl.begin().unwrap();
    let max_turns = 2;

    assert_eq!(submission_gate(&ctl, max_turns), InputDirective::Proceed);
    record_submission(&mut ctl, Ok(()));
    assert_eq!(submission_gate(&ctl, max_turns), InputDirective::Proceed);
    record_submission(&mut ctl, Ok(()));

    assert_eq!(submission_gate(&ctl, max_turns), InputDirective::LimitReached);
    let msg = turn_limit_output(&ctl);
    assert_eq!(msg.turn_id, 2);
    assert!(matches!(msg.data, OutputData::Error(OutputError::TurnLimitExceeded)));
    assert_eq!(ctl.turn_count(), 2);
}

#[test]
fn test_collect_response_concatenates_until_completed() {
    let outputs = vec![
        OutputMessage { turn_id: 0, data: OutputData::Start },
        OutputMessage { turn_id: 0, data: OutputData::PrimaryDelta("2+2 ".to_string()) },
        OutputMessage { turn_id: 0, data: OutputData::Primary("is 4".to_string()) },
        OutputMessage { turn_id: 0, data: OutputData::Completed },
        OutputMessage { turn_id: 1, data: OutputData::Primary("ignored".to_string()) },
    ];
    assert_eq!(collect_response(&outputs).unwrap(), "2+2 is 4");
}

#[test]
fn test_collect_response_stops_on_error() {
    let outputs = vec![
        OutputMessage { turn_id: 0, data: OutputData::Primary("partial".to_string()) },
        OutputMessage { turn_id: 0, data: OutputData::Error(OutputError::Interrupted) },
    ];
    let err = collect_response(&outputs).unwrap_err();
    assert!(matches!(err, AgentError::OutputError(OutputError::Interrupted)));
}

#[test]
fn test_collect_response_of_closed_stream() {
    let outputs = vec![
        OutputMessage { turn_id: 0, data: OutputData::Primary("tail".to_string()) },
    ];
    assert_eq!(collect_response(&outputs).unwrap(), "tail");
    assert_eq!(collect_response(&Vec::new()).unwrap(), "");
}
