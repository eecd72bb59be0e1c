use argusx::effect::{map_agent_error, model_output_to_event, tool_outcome_to_event, tool_permits, ModelOutputEvent};
use argusx::error::{AgentError, RuntimeError, TransientError};
use argusx::model::{InputEnvelope, InputPart, InputSource, SessionMeta, ToolCall, ToolResult, Usage};
use argusx::runtime_event::RuntimeEvent;
use argusx::state::{RetryPolicy, TurnEngineConfig, TurnState};
use argusx::transcript::TranscriptItem;

#[test]
fn retry_after_is_read_from_every_transient_error() {
    let e = TransientError::RateLimit { message: "slow".to_string(), retry_after_ms: Some(250) };
    assert_eq!(e.retry_after_ms(), Some(250));
    let e = TransientError::Network { message: "x".to_string(), retry_after_ms: None };
    assert_eq!(e.retry_after_ms(), None);
    let e = TransientError::ServiceUnavailable { message: "x".to_string(), retry_after_ms: Some(1) };
    assert_eq!(e.retry_after_ms(), Some(1));
}

#[test]
fn only_transient_errors_are_retryable() {
    assert!(AgentError::Transient(TransientError::Network { message: "n".to_string(), retry_after_ms: None }).is_retryable());
    assert!(!AgentError::Model { message: "m".to_string() }.is_retryable());
    assert!(!AgentError::Runtime(RuntimeError::Cancelled { message: "c".to_string() }).is_retryable());
}

#[test]
fn error_messages() {
    assert_eq!(
        AgentError::Transient(TransientError::RateLimit { message: "busy".to_string(), retry_after_ms: None }).to_message(),
        "rate limit exceeded: busy"
    );
    assert_eq!(AgentError::Tool { message: "t".to_string() }.to_message(), "tool error: t");
    assert_eq!(RuntimeError::TurnNotFound { turn_id: "t9".to_string() }.to_message(), "turn not found: t9");
    let a: AgentError = RuntimeError::InvalidEvent { message: "bad".to_string() }.into();
    assert_eq!(a.to_message(), "invalid event: bad");
}

#[test]
fn usage_merge_saturates() {
    let mut u = Usage { input_tokens: 1, output_tokens: u64::MAX - 1, total_tokens: 5 };
    u.merge(&Usage { input_tokens: 2, output_tokens: 10, total_tokens: 0 });
    assert_eq!(u, Usage { input_tokens: 3, output_tokens: u64::MAX, total_tokens: 5 });
    let mut z = Usage::default();
    z.merge(&Usage { input_tokens: 4, output_tokens: 5, total_tokens: 9 });
    assert_eq!(z, Usage { input_tokens: 4, output_tokens: 5, total_tokens: 9 });
}

#[test]
fn inputs_and_results() {
    let meta = SessionMeta::new("s", "t");
    assert_eq!(meta.session_id, "s");
    let input = InputEnvelope::user_text("hi");
    assert_eq!(input.source, InputSource::User);
    assert_eq!(input.parts, vec![InputPart::Text { text: "hi".to_string() }]);
    let tool = InputEnvelope::tool_json("{}".to_string());
    assert_eq!(tool.source, InputSource::Tool);
    assert_ne!(InputEnvelope::user_text("a").id, InputEnvelope::user_text("a").id);
    let ok = ToolResult::ok("c1", "1".to_string());
    assert!(!ok.is_error);
    let err = ToolResult::err("c1", "bad \"x\"");
    assert!(err.is_error);
    assert_eq!(err.output, "{\"error\":\"bad \\\"x\\\"\"}");
    let call = ToolCall::new("echo", "{}".to_string());
    assert_eq!(call.tool_name, "echo");
    assert!(!call.call_id.is_empty());
}

#[test]
fn model_outputs_become_events() {
    let e = model_output_to_event(3, ModelOutputEvent::TextDelta { delta: "x".to_string() }, "e1".to_string());
    assert_eq!(e, RuntimeEvent::ModelTextDelta { event_id: "e1".to_string(), epoch: 3, delta: "x".to_string() });
    let e = model_output_to_event(3, ModelOutputEvent::Completed { usage: None }, "e2".to_string());
    assert_eq!(e, RuntimeEvent::ModelCompleted { event_id: "e2".to_string(), epoch: 3, usage: None });
    let e = map_agent_error(
        2,
        AgentError::Transient(TransientError::ServiceUnavailable { message: "down".to_string(), retry_after_ms: Some(9) }),
        "e3".to_string(),
    );
    assert_eq!(
        e,
        RuntimeEvent::TransientError {
            event_id: "e3".to_string(),
            epoch: 2,
            message: "service unavailable: down".to_string(),
            retry_after_ms: Some(9)
        }
    );
    let e = map_agent_error(2, AgentError::Model { message: "m".to_string() }, "e4".to_string());
    assert_eq!(e, RuntimeEvent::FatalError { event_id: "e4".to_string(), message: "model error: m".to_string() });
    let e = tool_outcome_to_event(1, "c1", Err("nope".to_string()), "e5".to_string());
    match e {
        RuntimeEvent::ToolResultErr { result, epoch, .. } => {
            assert_eq!(epoch, 1);
            assert!(result.is_error);
            assert_eq!(result.output, "{\"error\":\"nope\"}");
        }
        _ => panic!("expected a tool error"),
    }
    assert_eq!(tool_permits(0), 1);
    assert_eq!(tool_permits(4), 4);
}

#[test]
fn runtime_event_ids() {
    let e = RuntimeEvent::FatalError { event_id: "e1".to_string(), message: "m".to_string() };
    assert_eq!(e.id(), "e1");
    let e = e.with_event_id("e2".to_string());
    assert_eq!(e.id(), "e2");
    let fresh = e.with_new_id();
    assert_ne!(fresh.id(), "e2");
    assert!(!fresh.id().is_empty());
}

#[test]
fn fresh_state_and_queue() {
    let mut state = TurnState::new(SessionMeta::new("s", "t"));
    assert_eq!(state.turn_id(), "t");
    assert!(!state.mark_seen("e1"));
    assert!(state.mark_seen("e1"));
    state.enqueue_input(InputEnvelope::user_text("a"));
    state.enqueue_input(InputEnvelope::user_text("b"));
    let drained = state.drain_pending_inputs();
    assert_eq!(drained.len(), 2);
    assert_eq!(drained[0].parts, vec![InputPart::Text { text: "a".to_string() }]);
    assert!(state.pending_inputs.is_empty());
    assert!(!state.can_finish());
    assert_eq!(state.tool_calls_count(), 0);
    state.transcript.push(TranscriptItem::tool_call(0, ToolCall::new("echo", "{}".to_string())));
    assert_eq!(state.tool_calls_count(), 1);
    let c = TurnEngineConfig::default();
    assert_eq!(c.max_parallel_tools, 4);
    assert_eq!(RetryPolicy::default(), RetryPolicy { max_retries: 3, base_delay_ms: 200 });
}

#[test]
fn quoted_forms_are_spliced_verbatim() {
    let r = ToolResult::err_quoted("c9", "\"already quoted\"");
    assert_eq!(r.output, "{\"error\":\"already quoted\"}");
    assert_eq!(r.call_id, "c9");
    assert!(r.is_error);
    let input = argusx::testing::tool_input_quoted("\"c1\"", "[1,2]");
    assert_eq!(input.parts, vec![InputPart::Json { value: "{\"call_id\":\"c1\",\"result\":[1,2]}".to_string() }]);
}

#[test]
fn one_turn_per_id() {
    let mut registry = argusx::registry::TurnRegistry::new();
    assert!(registry.register("t1", 1u8).is_ok());
    assert!(registry.contains("t1"));
    assert!(matches!(
        registry.register("t1", 2u8),
        Err(RuntimeError::TurnAlreadyExists { ref turn_id }) if turn_id == "t1"
    ));
    assert_eq!(*registry.get("t1").unwrap(), 1);
    assert!(matches!(registry.get("t2"), Err(RuntimeError::TurnNotFound { ref turn_id }) if turn_id == "t2"));
    registry.remove("t1");
    assert!(!registry.contains("t1"));
    assert!(registry.register("t1", 3u8).is_ok());
    assert_eq!(*registry.get("t1").unwrap(), 3);
}

#[test]
fn fresh_ids_are_v4_uuid_text() {
    let ids = argusx::reducer::FreshIds::generate();
    for id in [argusx::model::new_id(), ids.user_message, ids.system_note] {
        let chars: Vec<char> = id.chars().collect();
        assert_eq!(chars.len(), 36);
        for (i, c) in chars.iter().enumerate() {
            if [8, 13, 18, 23].contains(&i) {
                assert_eq!(*c, '-');
            } else {
                assert!(c.is_ascii_digit() || ('a'..='f').contains(c));
            }
        }
        assert_eq!(chars[14], '4');
        assert!(['8', '9', 'a', 'b'].contains(&chars[19]));
    }
}

fn is_v4_text(id: &str) -> bool {
    let chars: Vec<char> = id.chars().collect();
    chars.len() == 36
        && chars.iter().enumerate().all(|(i, c)| {
            if [8, 13, 18, 23].contains(&i) {
                *c == '-'
            } else {
                c.is_ascii_digit() || ('a'..='f').contains(c)
            }
        })
        && chars[14] == '4'
        && ['8', '9', 'a', 'b'].contains(&chars[19])
}

#[test]
fn made_ids_are_v4_uuid_text() {
    let e = RuntimeEvent::FatalError { event_id: "e1".to_string(), message: "m".to_string() }.with_new_id();
    assert!(is_v4_text(e.id()));
    assert!(is_v4_text(&InputEnvelope::user_text("a").id));
    assert!(is_v4_text(&InputEnvelope::tool_json("1".to_string()).id));
    assert!(is_v4_text(&ToolCall::new("echo", "{}".to_string()).call_id));
    match TranscriptItem::assistant_message("x") {
        TranscriptItem::AssistantMessage { id, .. } => assert!(is_v4_text(&id)),
        _ => panic!("expected an assistant message"),
    }
}

#[test]
fn error_messages_are_escaped_as_serde_json_does() {
    let r = ToolResult::err("c", "a\u{1}\n\t\"/\\\u{1f}é");
    assert_eq!(r.output, "{\"error\":\"a\\u0001\\n\\t\\\"/\\\\\\u001fé\"}");
}
