use argusx::effect::{model_stream_step, ModelOutputEvent};
use argusx::error::{AgentError, TransientError};
use argusx::events::UiThreadEvent;
use argusx::llm_cli::{input_mode, usage_line, CommonOpts, InputMode};
use argusx::llm_output::{ModelUsage, OutputFormat};
use argusx::reducer::{backoff_ms, reduce};
use argusx::runtime_event::RuntimeEvent;
use argusx::state::{ModelState, RetryPolicy, TurnEngineConfig};
use argusx::testing::{
    test_config, tool_call, user_input, EventBuilder, EventCounter, StateBuilder, TransitionAssert,
};
use argusx::transcript::TranscriptItem;

#[test]
fn counted_builds_number_events_from_zero() {
    let mut ids = EventCounter::new();
    let a = EventBuilder::model_completed().build(&mut ids);
    let b = EventBuilder::model_text_delta("x").build(&mut ids);
    let c = EventBuilder::fatal_error("boom").build(&mut ids);
    assert_eq!(a.id(), "evt_0");
    assert_eq!(b.id(), "evt_1");
    assert_eq!(c.id(), "evt_2");
    assert_ne!(a.id(), b.id());
}

#[test]
fn preset_id_wins_and_the_counter_still_moves() {
    let mut ids = EventCounter::new();
    let a = EventBuilder::model_completed().with_event_id("mine").build(&mut ids);
    let b = EventBuilder::model_completed().build(&mut ids);
    assert_eq!(a.id(), "mine");
    assert_eq!(b.id(), "evt_1");
}

#[test]
fn numbered_build_uses_the_number() {
    let e = EventBuilder::tool_dispatched("c1").build_numbered(42);
    assert_eq!(e.id(), "evt_42");
    let f = EventBuilder::tool_dispatched("c1").with_event_id("e9").build_numbered(42);
    assert_eq!(f.id(), "e9");
}

#[test]
fn counter_counts_up_by_one() {
    let mut ids = EventCounter::new();
    assert_eq!(ids.next(), 0);
    assert_eq!(ids.next(), 1);
    assert_eq!(ids.next(), 2);
}

#[test]
fn turn_started_builds_with_the_builders_fields() {
    let mut ids = EventCounter::new();
    match EventBuilder::turn_started("t1", user_input("hello")).build(&mut ids) {
        RuntimeEvent::TurnStarted { event_id, turn_id, input } => {
            assert_eq!(event_id, "evt_0");
            assert_eq!(turn_id, "t1");
            assert_eq!(input.source, argusx::model::InputSource::User);
        }
        _ => panic!("expected TurnStarted"),
    }
}

#[test]
fn state_builder_takes_tools_events_and_transcript() {
    let state = StateBuilder::new("s1", "t1")
        .with_inflight_tools(vec![
            ("c1".to_string(), tool_call("c1", "echo", "{}")),
            ("c2".to_string(), tool_call("c2", "read", "{\"p\":1}")),
            ("c1".to_string(), tool_call("c1", "write", "{}")),
        ])
        .with_seen_events(vec!["e1".to_string(), "e2".to_string()])
        .with_transcript(vec![
            TranscriptItem::assistant_message("one"),
            TranscriptItem::reasoning("two"),
        ])
        .build();
    assert_eq!(state.inflight_tools.len(), 2);
    assert_eq!(state.inflight_tools.get("c1").unwrap().tool_name, "write");
    assert_eq!(state.inflight_tools.get("c2").unwrap().tool_name, "read");
    assert!(state.seen_event_ids.contains("e1"));
    assert!(state.seen_event_ids.contains("e2"));
    assert!(!state.seen_event_ids.contains("e3"));
    assert_eq!(state.transcript.len(), 2);
    assert!(matches!(&state.transcript[0], TranscriptItem::AssistantMessage { .. }));
    assert!(matches!(&state.transcript[1], TranscriptItem::Reasoning { .. }));
}

#[test]
fn seen_event_from_builder_is_ignored_by_reduce() {
    let state = StateBuilder::new("s1", "t1").with_seen_events(vec!["e1".to_string()]).build();
    let event = EventBuilder::turn_started("t1", user_input("hi")).with_event_id("e1").build_numbered(0);
    let tr = reduce(state, event, &test_config());
    assert_eq!(tr.state.model_state, ModelState::NotStarted);
    assert!(tr.state.transcript.is_empty());
    assert!(tr.effects.is_empty());
}

#[test]
fn emits_ui_event_checks_thread_events() {
    let mut ids = EventCounter::new();
    let state = StateBuilder::new("s1", "t1").with_model_state(ModelState::Streaming).build();
    let tr = reduce(state, EventBuilder::model_text_delta("hey").with_epoch(0).build(&mut ids), &test_config());
    assert!(TransitionAssert::new(&tr)
        .emits_ui_event(|e| matches!(e, UiThreadEvent::MessageDelta { delta, .. } if delta == "hey"))
        .holds());
    assert!(!TransitionAssert::new(&tr)
        .emits_ui_event(|e| matches!(e, UiThreadEvent::Error { .. }))
        .holds());
}

#[test]
fn stream_step_passes_outputs_on() {
    let step = model_stream_step(
        2,
        Ok(ModelOutputEvent::TextDelta { delta: "abc".to_string() }),
        false,
        "e1".to_string(),
    );
    assert!(!step.stop);
    assert!(!step.saw_completed);
    match step.event {
        RuntimeEvent::ModelTextDelta { event_id, epoch, delta } => {
            assert_eq!(event_id, "e1");
            assert_eq!(epoch, 2);
            assert_eq!(delta, "abc");
        }
        _ => panic!("expected a text delta"),
    }
    let done = model_stream_step(2, Ok(ModelOutputEvent::Completed { usage: None }), false, "e2".to_string());
    assert!(!done.stop);
    assert!(done.saw_completed);
    assert!(matches!(done.event, RuntimeEvent::ModelCompleted { epoch: 2, .. }));
}

#[test]
fn stream_step_stops_at_an_error() {
    let err = AgentError::Transient(TransientError::Network { message: "down".to_string(), retry_after_ms: Some(5) });
    let step = model_stream_step(3, Err(err), true, "e3".to_string());
    assert!(step.stop);
    assert!(step.saw_completed);
    match step.event {
        RuntimeEvent::TransientError { epoch, retry_after_ms, .. } => {
            assert_eq!(epoch, 3);
            assert_eq!(retry_after_ms, Some(5));
        }
        _ => panic!("expected a transient error"),
    }
    let fatal = model_stream_step(3, Err(AgentError::Model { message: "bad".to_string() }), false, "e4".to_string());
    assert!(fatal.stop);
    assert!(matches!(fatal.event, RuntimeEvent::FatalError { .. }));
}

fn opts(interactive: bool, file: Option<&str>) -> CommonOpts {
    CommonOpts {
        api_key: None,
        interactive,
        file: file.map(|f| f.to_string()),
        output: OutputFormat::Text,
        stream: true,
        no_stream: false,
    }
}

#[test]
fn input_mode_prefers_interactive_then_file_then_pipe() {
    assert_eq!(input_mode(&opts(true, Some("p.txt"))), InputMode::Interactive);
    assert_eq!(input_mode(&opts(false, Some("p.txt"))), InputMode::File("p.txt".to_string()));
    assert_eq!(input_mode(&opts(false, None)), InputMode::Pipe);
}

#[test]
fn usage_line_reports_token_counts() {
    assert_eq!(usage_line(&ModelUsage { input_tokens: 12, output_tokens: 34 }), "[Usage: 12 in, 34 out]");
    assert_eq!(usage_line(&ModelUsage { input_tokens: 0, output_tokens: 0 }), "[Usage: 0 in, 0 out]");
}

#[test]
fn backoff_doubles_from_the_second_attempt_and_caps() {
    let cfg = test_config();
    assert_eq!(backoff_ms(&cfg, 0), 200);
    assert_eq!(backoff_ms(&cfg, 1), 200);
    assert_eq!(backoff_ms(&cfg, 2), 400);
    assert_eq!(backoff_ms(&cfg, 3), 800);
    assert_eq!(backoff_ms(&cfg, 11), 204800);
    assert_eq!(backoff_ms(&cfg, 20), 204800);
    assert_eq!(backoff_ms(&cfg, u32::MAX), 204800);
    let mut last = 0;
    for a in 0..30 {
        let d = backoff_ms(&cfg, a);
        assert!(d >= last);
        last = d;
    }
    let huge = TurnEngineConfig { max_parallel_tools: 1, retry_policy: RetryPolicy { max_retries: 1, base_delay_ms: u64::MAX / 2 } };
    assert_eq!(backoff_ms(&huge, 5), u64::MAX);
}
