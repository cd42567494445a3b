//! Tests for the message processing pipeline: filters, transformers,
//! aggregators and their fixed application order.

use codex_agent_lib::message::OutputData;
use codex_agent_lib::message::OutputMessage;
use codex_agent_lib::message::ToolArguments;
use codex_agent_lib::processing::MessageFilter;
use codex_agent_lib::processing::MessageProcessor;
use codex_agent_lib::processing::MessageTransformer;
use codex_agent_lib::processing::TypeFilter;
use codex_agent_lib::processing::truncate_lines;

fn primary(text: &str) -> OutputMessage {
    OutputMessage { turn_id: 0, data: OutputData::Primary(text.to_string()) }
}

fn delta(text: &str) -> OutputMessage {
    OutputMessage { turn_id: 0, data: OutputData::PrimaryDelta(text.to_string()) }
}

#[test]
fn test_delta_aggregation_emits_one_message() {
    let mut processor = MessageProcessor::builder().aggregate_deltas().build();

    let mut emitted = Vec::new();
    emitted.extend(processor.process(delta("a")));
    emitted.extend(processor.process(delta("b")));
    emitted.extend(processor.process(primary("done")));

    // The buffered deltas come out as one primary message, replacing the
    // message that triggered the emission.
    assert_eq!(emitted.len(), 1);
    assert!(matches!(emitted[0].data, OutputData::Primary(ref t) if t == "ab"));
    assert_eq!(emitted[0].turn_id, 0);

    // Nothing is left buffered afterwards.
    assert!(processor.flush().is_empty());
}

#[test]
fn test_delta_aggregation_flushes_trailing_buffer() {
    let mut processor = MessageProcessor::builder().aggregate_deltas().build();

    assert!(processor.process(delta("a")).is_empty());
    assert!(processor.process(delta("b")).is_empty());

    let flushed = processor.flush();
    assert_eq!(flushed.len(), 1);
    assert!(matches!(flushed[0].data, OutputData::Primary(ref t) if t == "ab"));
}

#[test]
fn test_delta_aggregator_passes_messages_over_empty_buffer() {
    let mut processor = MessageProcessor::builder().aggregate_deltas().build();
    let out = processor.process(primary("solo"));
    assert_eq!(out.len(), 1);
    assert!(matches!(out[0].data, OutputData::Primary(ref t) if t == "solo"));
}

#[test]
fn test_duplicate_removal_drops_repeated_text() {
    let mut processor = MessageProcessor::builder().remove_duplicates().build();

    let first = processor.process(primary("x"));
    let second = processor.process(primary("x"));
    let third = processor.process(primary("y"));

    assert_eq!(first.len(), 1);
    assert!(matches!(first[0].data, OutputData::Primary(ref t) if t == "x"));
    assert!(second.is_empty());
    assert_eq!(third.len(), 1);
    assert!(matches!(third[0].data, OutputData::Primary(ref t) if t == "y"));

    assert!(processor.flush().is_empty());
}

#[test]
fn test_duplicate_removal_ignores_non_text_messages() {
    let mut processor = MessageProcessor::builder().remove_duplicates().build();
    assert_eq!(processor.process(primary("x")).len(), 1);
    let completed = processor.process(OutputMessage { turn_id: 0, data: OutputData::Completed });
    assert_eq!(completed.len(), 1);
    // The tracked text survives an interleaved non-text message.
    assert!(processor.process(primary("x")).is_empty());
}

#[test]
fn test_filter_tool_output_drops_tool_traffic() {
    let mut processor = MessageProcessor::builder().filter_tool_output().build();

    let start = OutputMessage {
        turn_id: 0,
        data: OutputData::ToolStart {
            tool_name: "shell".to_string(),
            arguments: ToolArguments { plan: None, command: None },
        },
    };
    let chunk = OutputMessage {
        turn_id: 0,
        data: OutputData::ToolOutput { tool_name: "shell".to_string(), output: "hi".to_string() },
    };
    let done = OutputMessage {
        turn_id: 0,
        data: OutputData::ToolComplete { tool_name: "shell".to_string(), result: "ok".to_string() },
    };

    assert!(processor.process(start).is_empty());
    assert!(processor.process(chunk).is_empty());
    // A completion is not filtered by this stage.
    assert_eq!(processor.process(done).len(), 1);
}

#[test]
fn test_filter_by_type_keeps_only_named_types() {
    let mut processor = MessageProcessor::builder().filter_by_type(vec!["primary", "error"]).build();

    assert_eq!(processor.process(primary("keep")).len(), 1);
    assert!(processor.process(delta("drop")).is_empty());
    assert!(processor
        .process(OutputMessage { turn_id: 0, data: OutputData::Completed })
        .is_empty());
}

#[test]
fn test_truncate_lines_transformer() {
    let mut processor = MessageProcessor::builder().truncate_lines(5).build();
    let out = processor.process(primary("short\nlonger line\nok"));
    assert_eq!(out.len(), 1);
    assert!(matches!(out[0].data, OutputData::Primary(ref t) if t == "short\nlonge...\nok"));
}

#[test]
fn test_truncate_lines_function() {
    assert_eq!(truncate_lines("abcdef", 3), "abc...");
    assert_eq!(truncate_lines("abc", 3), "abc");
    assert_eq!(truncate_lines("", 3), "");
}

#[test]
fn test_strip_ansi_transformer() {
    let mut processor = MessageProcessor::builder().strip_ansi_codes().build();
    let out = processor.process(primary("\x1b[1mbold\x1b[0m"));
    assert_eq!(out.len(), 1);
    assert!(matches!(out[0].data, OutputData::Primary(ref t) if t == "bold"));
}

#[test]
fn test_pipeline_applies_stages_in_fixed_order() {
    // Filter first (vetoes tool traffic), then transform, then aggregate.
    let mut processor = MessageProcessor::builder()
        .filter(MessageFilter::ByType(TypeFilter::new(vec!["primary", "delta", "completed"])))
        .transform(MessageTransformer::TruncateLines { max_length: 4 })
        .aggregate_deltas()
        .build();

    assert!(processor.process(delta("abcdefgh")).is_empty());
    let out = processor.process(OutputMessage { turn_id: 3, data: OutputData::Completed });
    assert_eq!(out.len(), 1);
    // The delta was truncated before it was buffered; the emission replaces
    // the completion and carries the sentinel turn id.
    assert!(matches!(out[0].data, OutputData::Primary(ref t) if t == "abcd..."));
    assert_eq!(out[0].turn_id, 0);
}

#[test]
fn test_aggregators_chain_in_registration_order() {
    let mut processor = MessageProcessor::builder().aggregate_deltas().remove_duplicates().build();

    assert!(processor.process(delta("x")).is_empty());
    // The aggregated primary from the first stage flows into the remover.
    let out = processor.process(primary("x"));
    assert_eq!(out.len(), 1);
    assert!(matches!(out[0].data, OutputData::Primary(ref t) if t == "x"));
    // The remover saw "x" already, so an equal primary is now dropped by it.
    assert!(processor.process(primary("x")).is_empty());
}

#[test]
fn test_flush_concatenates_aggregator_outputs() {
    let mut processor = MessageProcessor::builder().remove_duplicates().aggregate_deltas().build();
    assert!(processor.process(delta("tail")).is_empty());
    let flushed = processor.flush();
    assert_eq!(flushed.len(), 1);
    assert!(matches!(flushed[0].data, OutputData::Primary(ref t) if t == "tail"));
}
