use argusx::model::InputSource;
use argusx::reducer::reduce;
use argusx::runtime_event::RuntimeEvent;
use argusx::state::{Lifecycle, ModelState};
use argusx::testing::{
    make_call_id, make_event_id, session_meta, test_config, tool_call, tool_input, user_input,
    EventBuilder, EventCounter, ScenarioRunner, StateBuilder, TransitionAssert,
};

#[test]
fn state_builder_default() {
    let state = StateBuilder::new("s1", "t1").build();

    assert_eq!(state.meta.session_id, "s1");
    assert_eq!(state.meta.turn_id, "t1");
    assert_eq!(state.lifecycle, Lifecycle::Active);
    assert_eq!(state.model_state, ModelState::NotStarted);
    assert_eq!(state.epoch, 0);
}

#[test]
fn state_builder_with_options() {
    let state = StateBuilder::new("s1", "t1")
        .with_lifecycle(Lifecycle::Backoff)
        .with_model_state(ModelState::Streaming)
        .with_epoch(2)
        .with_output_buffer("hello")
        .with_inflight_tool("c1", tool_call("c1", "echo", "{}"))
        .with_pending_input(user_input("test"))
        .with_done_emitted(true)
        .build();

    assert_eq!(state.lifecycle, Lifecycle::Backoff);
    assert_eq!(state.model_state, ModelState::Streaming);
    assert_eq!(state.epoch, 2);
    assert_eq!(state.output_buffer, "hello");
    assert!(state.inflight_tools.contains_key("c1"));
    assert_eq!(state.pending_inputs.len(), 1);
    assert!(state.done_emitted);
}

#[test]
fn event_builder_turn_started() {
    let mut ids = EventCounter::new();
    let event = EventBuilder::turn_started("t1", user_input("hello")).with_event_id("e1").build(&mut ids);

    match event {
        RuntimeEvent::TurnStarted { turn_id, input, .. } => {
            assert_eq!(turn_id, "t1");
            assert!(matches!(input.source, InputSource::User));
        }
        _ => panic!("Expected TurnStarted event"),
    }
}

#[test]
fn event_builder_model_tool_call() {
    let mut ids = EventCounter::new();
    let event = EventBuilder::model_tool_call("c1", "echo", "{\"a\":1}").with_epoch(1).build(&mut ids);

    match event {
        RuntimeEvent::ModelToolCall { epoch, call, .. } => {
            assert_eq!(epoch, 1);
            assert_eq!(call.call_id, "c1");
            assert_eq!(call.tool_name, "echo");
        }
        _ => panic!("Expected ModelToolCall event"),
    }
}

#[test]
fn event_builder_tool_result() {
    let mut ids = EventCounter::new();
    let event = EventBuilder::tool_result_ok("c1", "\"result\"").build(&mut ids);

    match event {
        RuntimeEvent::ToolResultOk { result, .. } => {
            assert_eq!(result.call_id, "c1");
            assert_eq!(result.output, "\"result\"");
        }
        _ => panic!("Expected ToolResultOk event"),
    }
}

#[test]
fn transition_assert_lifecycle() {
    let state = StateBuilder::new("s1", "t1").with_lifecycle(Lifecycle::Done).build();

    let transition = reduce(
        state,
        RuntimeEvent::ModelTextDelta { event_id: "e1".into(), epoch: 0, delta: "hello".into() },
        &test_config(),
    );

    // The event is ignored, so the lifecycle stays Done.
    assert!(TransitionAssert::new(&transition)
        .has_lifecycle(Lifecycle::Done)
        .has_model_state(ModelState::NotStarted)
        .holds());
}

#[test]
fn scenario_runner_basic() {
    let mut ids = EventCounter::new();
    let initial = StateBuilder::new("s1", "t1").build();
    let config = test_config();

    let final_state = ScenarioRunner::new(initial, &config)
        .push(EventBuilder::turn_started("t1", user_input("hello")).build(&mut ids))
        .push(EventBuilder::model_text_delta("hi").with_epoch(0).build(&mut ids))
        .push(EventBuilder::model_completed().with_epoch(0).build(&mut ids))
        .run()
        .into_state();

    assert_eq!(final_state.lifecycle, Lifecycle::Done);
    assert_eq!(final_state.output_buffer, "hi");
}

#[test]
fn scenario_runner_with_assertions() {
    let mut ids = EventCounter::new();
    let initial = StateBuilder::new("s1", "t1").build();
    let config = test_config();

    ScenarioRunner::new(initial, &config)
        .push_expect(EventBuilder::turn_started("t1", user_input("hello")).build(&mut ids), |s| {
            assert_eq!(s.model_state, ModelState::Streaming);
        })
        .push_expect(EventBuilder::model_text_delta("hi").with_epoch(0).build(&mut ids), |s| {
            assert_eq!(s.output_buffer, "hi");
        })
        .run();
}

#[test]
fn fixture_ids_are_zero_padded() {
    assert_eq!(make_call_id(7), "call_007");
    assert_eq!(make_call_id(1234), "call_1234");
    assert_eq!(make_event_id(42), "evt_042");
    let meta = session_meta("s", "t");
    assert_eq!(meta.session_id, "s");
    assert_eq!(meta.turn_id, "t");
}

#[test]
fn tool_input_quotes_the_call_id() {
    let input = tool_input("c\"1", "{\"x\":1}");
    assert_eq!(input.source, InputSource::Tool);
    match &input.parts[0] {
        argusx::model::InputPart::Json { value } => {
            assert_eq!(value, "{\"call_id\":\"c\\\"1\",\"result\":{\"x\":1}}");
        }
        _ => panic!("expected a JSON part"),
    }
}

#[test]
fn transition_assert_reports_failed_checks() {
    let mut ids = EventCounter::new();
    let state = StateBuilder::new("s1", "t1").build();
    let transition = reduce(state, EventBuilder::turn_started("t1", user_input("go")).build(&mut ids), &test_config());

    assert!(TransitionAssert::new(&transition)
        .has_model_state(ModelState::Streaming)
        .has_epoch(0)
        .has_transcript_count(1)
        .has_no_pending_inputs()
        .has_no_inflight_tools()
        .starts_model_with_epoch(0)
        .does_not_emit_turn_done()
        .emits_run_event_matching(|e| matches!(e, argusx::events::RunStreamEvent::TurnStart { .. }))
        .holds());
    assert!(!TransitionAssert::new(&transition).has_lifecycle(Lifecycle::Done).holds());
    assert!(!TransitionAssert::new(&transition).schedules_retry().holds());
    assert!(!TransitionAssert::new(&transition).emits_turn_done().holds());
}

#[test]
fn transition_assert_output_buffer_checks() {
    let mut ids = EventCounter::new();
    let state = StateBuilder::new("s1", "t1")
        .with_model_state(ModelState::Streaming)
        .build();
    let transition = reduce(state, EventBuilder::model_text_delta("hello world").with_epoch(0).build(&mut ids), &test_config());

    assert!(TransitionAssert::new(&transition)
        .has_output_buffer("hello world")
        .output_buffer_contains("lo wo")
        .holds());
    assert!(!TransitionAssert::new(&transition).has_output_buffer("hello").holds());
    assert!(!TransitionAssert::new(&transition).output_buffer_contains("xyz").holds());
}

#[test]
fn with_epoch_sets_the_epoch_of_a_dispatch() {
    let mut ids = EventCounter::new();
    let event = EventBuilder::tool_dispatched("c1").with_epoch(3).build(&mut ids);
    match event {
        RuntimeEvent::ToolDispatched { epoch, call_id, .. } => {
            assert_eq!(epoch, 3);
            assert_eq!(call_id, "c1");
        }
        _ => panic!("Expected ToolDispatched event"),
    }
}

#[test]
fn fixture_ids_differ_for_different_numbers() {
    assert_ne!(make_event_id(5), make_event_id(50));
    assert_eq!(make_event_id(5), "evt_005");
    assert_ne!(make_call_id(1), make_call_id(10));
}
