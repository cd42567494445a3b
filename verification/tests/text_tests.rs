//! Tests for the text utilities: wrapping, formatting and ANSI stripping.

use codex_agent_lib::message::CommandArg;
use codex_agent_lib::message::OutputData;
use codex_agent_lib::message::OutputMessage;
use codex_agent_lib::message::PlanArgEntry;
use codex_agent_lib::message::ToolArguments;
use codex_agent_lib::utils::clean_ansi;
use codex_agent_lib::utils::extract_commands;
use codex_agent_lib::utils::format_message;
use codex_agent_lib::utils::format_tool_output;
use codex_agent_lib::utils::get_tool_name;
use codex_agent_lib::utils::is_tool_message;
use codex_agent_lib::utils::split_lines;
use codex_agent_lib::utils::wrap_text;

#[test]
fn test_wrap_text() {
    let text = "This is a long line that needs to be wrapped at a specific width";
    let wrapped = wrap_text(text, 20);
    assert!(wrapped.iter().all(|line| line.len() <= 20));

    let text = "Short";
    let wrapped = wrap_text(text, 20);
    assert_eq!(wrapped, vec!["Short"]);

    let text = "Verylongwordthatcannotbewrappednormally";
    let wrapped = wrap_text(text, 10);
    assert!(wrapped.iter().all(|line| line.len() <= 10));
}

#[test]
fn test_format_tool_output() {
    let output = (0..20).map(|i| format!("Line {}", i)).collect::<Vec<_>>().join("\n");
    let formatted = format_tool_output(&output, 10);

    assert!(formatted.contains("Line 0"));
    assert!(formatted.contains("Line 19"));
    assert!(formatted.contains("omitted"));
}

#[test]
fn test_wrap_text_empty_and_zero_width() {
    assert_eq!(wrap_text("", 10), vec![String::new()]);
    assert_eq!(wrap_text("anything", 0), vec![String::new()]);
}

#[test]
fn test_wrap_text_keeps_short_lines() {
    let wrapped = wrap_text("one\ntwo three\n", 20);
    assert_eq!(wrapped, vec!["one", "two three"]);
}

#[test]
fn test_wrap_text_breaks_at_word_boundaries() {
    let wrapped = wrap_text("alpha beta gamma", 11);
    assert_eq!(wrapped, vec!["alpha beta", "gamma"]);
}

#[test]
fn test_wrap_text_whitespace_only_long_line_vanishes() {
    let spaces = " ".repeat(30);
    let wrapped = wrap_text(&spaces, 10);
    assert_eq!(wrapped, vec![String::new()]);
}

#[test]
fn test_format_tool_output_short_output_unchanged() {
    let output = "a\nb\nc";
    assert_eq!(format_tool_output(output, 3), "a\nb\nc");
}

#[test]
fn test_format_tool_output_exact_marker() {
    let output = (0..5).map(|i| format!("L{}", i)).collect::<Vec<_>>().join("\n");
    let formatted = format_tool_output(&output, 2);
    assert_eq!(formatted, "L0\n\n... (3 lines omitted) ...\n\nL4\n");
}

#[test]
fn test_split_lines_matches_std() {
    for text in ["", "a", "a\n", "a\nb", "a\r\nb", "\n", "a\n\nb\n"] {
        let expected: Vec<String> = text.lines().map(String::from).collect();
        assert_eq!(split_lines(text), expected, "case: {:?}", text);
    }
}

#[test]
fn test_clean_ansi_strips_escape_codes() {
    let colored = "\x1b[32mgreen\x1b[0m plain";
    assert_eq!(clean_ansi(colored), "green plain");
    assert_eq!(clean_ansi("no escapes"), "no escapes");
    assert_eq!(clean_ansi(""), "");
}

#[test]
fn test_extract_commands_from_text_argument() {
    let msg = OutputMessage {
        turn_id: 0,
        data: OutputData::ToolStart {
            tool_name: "shell".to_string(),
            arguments: ToolArguments {
                plan: None,
                command: Some(CommandArg::Text("ls -la".to_string())),
            },
        },
    };
    assert_eq!(extract_commands(&msg), vec!["ls -la"]);
}

#[test]
fn test_extract_commands_joins_word_list() {
    let msg = OutputMessage {
        turn_id: 0,
        data: OutputData::ToolStart {
            tool_name: "bash".to_string(),
            arguments: ToolArguments {
                plan: None,
                command: Some(CommandArg::Words(vec![
                    "echo".to_string(),
                    "hi".to_string(),
                    "there".to_string(),
                ])),
            },
        },
    };
    assert_eq!(extract_commands(&msg), vec!["echo hi there"]);
}

#[test]
fn test_extract_commands_ignores_other_tools() {
    let msg = OutputMessage {
        turn_id: 0,
        data: OutputData::ToolStart {
            tool_name: "update_plan".to_string(),
            arguments: ToolArguments {
                plan: Some(vec![PlanArgEntry { step: None, status: None }]),
                command: Some(CommandArg::Text("ls".to_string())),
            },
        },
    };
    assert!(extract_commands(&msg).is_empty());
    let msg = OutputMessage { turn_id: 0, data: OutputData::Completed };
    assert!(extract_commands(&msg).is_empty());
}

#[test]
fn test_tool_message_helpers() {
    let tool = OutputMessage {
        turn_id: 0,
        data: OutputData::ToolComplete { tool_name: "shell".to_string(), result: "ok".to_string() },
    };
    assert!(is_tool_message(&tool));
    assert_eq!(get_tool_name(&tool), Some("shell".to_string()));

    let plain = OutputMessage { turn_id: 0, data: OutputData::Primary("hi".to_string()) };
    assert!(!is_tool_message(&plain));
    assert_eq!(get_tool_name(&plain), None);
}

#[test]
fn test_format_message_lines() {
    let primary = OutputMessage { turn_id: 0, data: OutputData::Primary("hello".to_string()) };
    assert_eq!(format_message(&primary), "hello");

    let start = OutputMessage {
        turn_id: 0,
        data: OutputData::ToolStart {
            tool_name: "shell".to_string(),
            arguments: ToolArguments { plan: None, command: None },
        },
    };
    assert_eq!(format_message(&start), "🔧 Running: shell");

    let done = OutputMessage { turn_id: 0, data: OutputData::Completed };
    assert_eq!(format_message(&done), "✅ Completed");

    let reasoning = OutputMessage { turn_id: 0, data: OutputData::Reasoning("hm".to_string()) };
    assert_eq!(format_message(&reasoning), "");
}
