use argusx::effect::Effect;
use argusx::events::{RunStreamEvent, ToolCallStatus, UiThreadEvent};
use argusx::model::Usage;
use argusx::reducer::reduce;
use argusx::runtime_event::RuntimeEvent;
use argusx::state::{Lifecycle, ModelState, TurnEngineConfig, TurnState};
use argusx::testing::{test_config, tool_call, user_input, EventBuilder, EventCounter, ScenarioRunner, StateBuilder};

fn base_state() -> TurnState {
    StateBuilder::new("s1", "t1").build()
}

fn cfg() -> TurnEngineConfig {
    test_config()
}

#[test]
fn replay_is_deterministic() {
    let run_once = || {
        let mut ids = EventCounter::new();
        let mut state = base_state();
        let mut runs = Vec::new();

        let events = vec![
            EventBuilder::turn_started("t1", user_input("hi")).build(&mut ids),
            EventBuilder::model_text_delta("hello").with_epoch(0).build(&mut ids),
            EventBuilder::model_completed()
                .with_epoch(0)
                .with_usage(Usage { input_tokens: 1, output_tokens: 1, total_tokens: 2 })
                .build(&mut ids),
        ];

        for ev in events {
            let tr = reduce(state, ev, &cfg());
            runs.extend(tr.run_events.clone());
            state = tr.state;
        }
        (state.lifecycle, state.done_emitted, state.transcript.len(), runs)
    };

    let a = run_once();
    let b = run_once();
    assert_eq!(a, b);
}

#[test]
fn completed_does_not_finish_when_tool_inflight() {
    let mut ids = EventCounter::new();
    let state = StateBuilder::new("s1", "t1")
        .with_lifecycle(Lifecycle::Active)
        .with_model_state(ModelState::Streaming)
        .build();

    let state = reduce(state, EventBuilder::turn_started("t1", user_input("hi")).build(&mut ids), &cfg()).state;

    let state = reduce(
        state,
        EventBuilder::model_tool_call("c1", "echo", "{}").with_epoch(0).build(&mut ids),
        &cfg(),
    )
    .state;

    let state = reduce(state, EventBuilder::model_completed().with_epoch(0).build(&mut ids), &cfg()).state;

    assert_eq!(state.model_state, ModelState::Completed);
    assert!(!state.done_emitted);
}

#[test]
fn live_injection_after_completed_restarts_model() {
    let mut ids = EventCounter::new();
    let state = base_state();

    let state = reduce(state, EventBuilder::turn_started("t1", user_input("first")).build(&mut ids), &cfg()).state;

    let state = reduce(state, EventBuilder::input_injected(user_input("second")).build(&mut ids), &cfg()).state;

    let tr = reduce(state, EventBuilder::model_completed().with_epoch(0).build(&mut ids), &cfg());

    assert_eq!(tr.state.epoch, 1);
    assert_eq!(tr.state.model_state, ModelState::Streaming);
    assert!(tr.effects.iter().any(|e| matches!(e, Effect::StartModel { epoch: 1, .. })));
}

#[test]
fn transient_error_schedules_retry_and_bumps_epoch() {
    let mut ids = EventCounter::new();
    let state = base_state();
    let state = reduce(state, EventBuilder::turn_started("t1", user_input("hi")).build(&mut ids), &cfg()).state;

    let backoff = reduce(
        state,
        EventBuilder::transient_error("timeout").with_epoch(0).with_retry_after_ms(1).build(&mut ids),
        &cfg(),
    );

    assert_eq!(backoff.state.lifecycle, Lifecycle::Backoff);
    assert!(backoff
        .effects
        .iter()
        .any(|e| matches!(e, Effect::ScheduleRetry { next_epoch: 1, .. })));

    let retry = reduce(
        backoff.state,
        RuntimeEvent::RetryTimerFired { event_id: "e3".into(), next_epoch: 1 },
        &cfg(),
    );

    assert_eq!(retry.state.lifecycle, Lifecycle::Active);
    assert_eq!(retry.state.epoch, 1);
    assert!(retry.effects.iter().any(|e| matches!(e, Effect::StartModel { epoch: 1, .. })));
}

#[test]
fn turn_done_is_emitted_once() {
    let mut ids = EventCounter::new();
    let state = base_state();
    let state = reduce(state, EventBuilder::turn_started("t1", user_input("hi")).build(&mut ids), &cfg()).state;

    let state = reduce(state, EventBuilder::model_text_delta("done").with_epoch(0).build(&mut ids), &cfg()).state;

    let first = reduce(state, EventBuilder::model_completed().with_epoch(0).build(&mut ids), &cfg());

    assert!(first.run_events.iter().any(|e| matches!(e, RunStreamEvent::TurnDone { .. })));

    let second = reduce(first.state, EventBuilder::model_completed().with_epoch(0).build(&mut ids), &cfg());

    assert!(!second.run_events.iter().any(|e| matches!(e, RunStreamEvent::TurnDone { .. })));
}

#[test]
fn turn_started_normal_start() {
    let mut ids = EventCounter::new();
    let state = StateBuilder::new("s1", "t1").build();

    let result = reduce(state, EventBuilder::turn_started("t1", user_input("hello")).build(&mut ids), &test_config());

    assert_eq!(result.state.lifecycle, Lifecycle::Active);
    assert_eq!(result.state.model_state, ModelState::Streaming);
    assert_eq!(result.state.pending_inputs.len(), 0);
    assert_eq!(result.state.transcript.len(), 1);

    assert!(result.run_events.iter().any(|e| matches!(e, RunStreamEvent::TurnStart { .. })));

    assert!(result.effects.iter().any(|e| matches!(e, Effect::StartModel { .. })));
}

#[test]
fn turn_started_mismatched_turn_id() {
    let mut ids = EventCounter::new();
    let state = StateBuilder::new("s1", "t1").build();

    let result = reduce(state, EventBuilder::turn_started("t2", user_input("hello")).build(&mut ids), &test_config());

    assert_eq!(result.state.lifecycle, Lifecycle::Active);
    assert_eq!(result.state.model_state, ModelState::NotStarted);
    assert!(result.state.pending_inputs.is_empty());

    assert!(result.run_events.iter().any(|e| matches!(e, RunStreamEvent::ProtocolWarning { .. })));
}

#[test]
fn model_text_delta_normal_append() {
    let mut ids = EventCounter::new();
    let state = StateBuilder::new("s1", "t1")
        .with_lifecycle(Lifecycle::Active)
        .with_model_state(ModelState::Streaming)
        .build();

    let result = reduce(state, EventBuilder::model_text_delta("hello").with_epoch(0).build(&mut ids), &test_config());

    assert_eq!(result.state.output_buffer, "hello");

    assert!(result.ui_events.iter().any(|e| matches!(e, UiThreadEvent::MessageDelta { .. })));
}

#[test]
fn model_text_delta_ignored_in_not_started() {
    let mut ids = EventCounter::new();
    let state = StateBuilder::new("s1", "t1")
        .with_lifecycle(Lifecycle::Active)
        .with_model_state(ModelState::NotStarted)
        .build();

    let result = reduce(state, EventBuilder::model_text_delta("hello").with_epoch(0).build(&mut ids), &test_config());

    assert!(result.state.output_buffer.is_empty());
}

#[test]
fn model_text_delta_ignored_wrong_epoch() {
    let mut ids = EventCounter::new();
    let state = StateBuilder::new("s1", "t1")
        .with_lifecycle(Lifecycle::Active)
        .with_model_state(ModelState::Streaming)
        .with_epoch(1)
        .build();

    let result = reduce(state, EventBuilder::model_text_delta("hello").with_epoch(0).build(&mut ids), &test_config());

    assert!(result.state.output_buffer.is_empty());
}

#[test]
fn model_tool_call_normal() {
    let mut ids = EventCounter::new();
    let state = StateBuilder::new("s1", "t1")
        .with_lifecycle(Lifecycle::Active)
        .with_model_state(ModelState::Streaming)
        .build();

    let result = reduce(
        state,
        EventBuilder::model_tool_call("c1", "echo", "{}").with_epoch(0).build(&mut ids),
        &test_config(),
    );

    assert!(result.state.inflight_tools.contains_key("c1"));

    assert!(result.state.transcript.len() >= 1);

    assert!(result
        .run_events
        .iter()
        .any(|e| matches!(e, RunStreamEvent::ToolExecutionPlanned { .. })));

    assert!(result.effects.iter().any(|e| matches!(e, Effect::ExecuteTool { .. })));
}

#[test]
fn model_tool_call_duplicate_id() {
    let mut ids = EventCounter::new();
    let state = StateBuilder::new("s1", "t1")
        .with_lifecycle(Lifecycle::Active)
        .with_model_state(ModelState::Streaming)
        .with_inflight_tool("c1", tool_call("c1", "echo", "{}"))
        .build();

    let result = reduce(
        state,
        EventBuilder::model_tool_call("c1", "echo", "{}").with_epoch(0).build(&mut ids),
        &test_config(),
    );

    assert!(result.run_events.iter().any(|e| matches!(e, RunStreamEvent::ProtocolWarning { .. })));
}

#[test]
fn tool_dispatched_normal() {
    let mut ids = EventCounter::new();
    let state = StateBuilder::new("s1", "t1")
        .with_lifecycle(Lifecycle::Active)
        .with_model_state(ModelState::Streaming)
        .with_inflight_tool("c1", tool_call("c1", "echo", "{}"))
        .build();

    let result = reduce(state, EventBuilder::tool_dispatched("c1").with_epoch(0).build(&mut ids), &test_config());

    assert!(result
        .run_events
        .iter()
        .any(|e| matches!(e, RunStreamEvent::ToolExecutionStart { .. })));

    assert!(result.ui_events.iter().any(|e| matches!(
        e,
        UiThreadEvent::ToolCallProgress { status: ToolCallStatus::Running, .. }
    )));
}

#[test]
fn tool_dispatched_unknown_call_id() {
    let mut ids = EventCounter::new();
    let state = StateBuilder::new("s1", "t1")
        .with_lifecycle(Lifecycle::Active)
        .with_model_state(ModelState::Streaming)
        .build();

    let result = reduce(state, EventBuilder::tool_dispatched("unknown").with_epoch(0).build(&mut ids), &test_config());

    assert!(result.run_events.is_empty());
}

#[test]
fn tool_result_ok_normal() {
    let mut ids = EventCounter::new();
    let state = StateBuilder::new("s1", "t1")
        .with_lifecycle(Lifecycle::Active)
        .with_model_state(ModelState::Streaming)
        .with_inflight_tool("c1", tool_call("c1", "echo", "{}"))
        .build();

    let result = reduce(state, EventBuilder::tool_result_ok("c1", "\"result\"").build(&mut ids), &test_config());

    assert!(!result.state.inflight_tools.contains_key("c1"));

    assert!(!result.state.pending_inputs.is_empty());

    assert!(result
        .run_events
        .iter()
        .any(|e| matches!(e, RunStreamEvent::ToolExecutionDone { .. })));
}

#[test]
fn tool_result_ok_unknown_call_id() {
    let mut ids = EventCounter::new();
    let state = StateBuilder::new("s1", "t1")
        .with_lifecycle(Lifecycle::Active)
        .with_model_state(ModelState::Streaming)
        .build();

    let result = reduce(state, EventBuilder::tool_result_ok("unknown", "\"result\"").build(&mut ids), &test_config());

    assert!(result.state.inflight_tools.is_empty());
}

#[test]
fn input_injected_normal() {
    let mut ids = EventCounter::new();
    let state = StateBuilder::new("s1", "t1")
        .with_lifecycle(Lifecycle::Active)
        .with_model_state(ModelState::Streaming)
        .build();

    let result = reduce(state, EventBuilder::input_injected(user_input("injected")).build(&mut ids), &test_config());

    assert_eq!(result.state.pending_inputs.len(), 1);

    assert!(result.state.transcript.len() >= 1);

    assert!(result.run_events.iter().any(|e| matches!(e, RunStreamEvent::InputInjected { .. })));
}

#[test]
fn input_injected_restarts_model_when_completed() {
    let mut ids = EventCounter::new();
    let state = StateBuilder::new("s1", "t1")
        .with_lifecycle(Lifecycle::Active)
        .with_model_state(ModelState::Completed)
        .build();

    let result = reduce(state, EventBuilder::input_injected(user_input("injected")).build(&mut ids), &test_config());

    assert_eq!(result.state.epoch, 1);
    assert_eq!(result.state.model_state, ModelState::Streaming);

    assert!(result.effects.iter().any(|e| matches!(e, Effect::StartModel { epoch: 1, .. })));
}

#[test]
fn model_completed_normal() {
    let mut ids = EventCounter::new();
    let state = StateBuilder::new("s1", "t1")
        .with_lifecycle(Lifecycle::Active)
        .with_model_state(ModelState::Streaming)
        .build();

    let result = reduce(state, EventBuilder::model_completed().with_epoch(0).build(&mut ids), &test_config());

    assert_eq!(result.state.model_state, ModelState::Completed);

    assert!(result.run_events.iter().any(|e| matches!(e, RunStreamEvent::ModelCompleted { .. })));
}

#[test]
fn model_completed_restarts_with_pending_inputs() {
    let mut ids = EventCounter::new();
    let state = StateBuilder::new("s1", "t1")
        .with_lifecycle(Lifecycle::Active)
        .with_model_state(ModelState::Streaming)
        .with_pending_input(user_input("pending"))
        .build();

    let result = reduce(state, EventBuilder::model_completed().with_epoch(0).build(&mut ids), &test_config());

    assert_eq!(result.state.epoch, 1);
    assert_eq!(result.state.model_state, ModelState::Streaming);

    assert!(result.effects.iter().any(|e| matches!(e, Effect::StartModel { epoch: 1, .. })));
}

#[test]
fn model_completed_ignored_wrong_epoch() {
    let mut ids = EventCounter::new();
    let state = StateBuilder::new("s1", "t1")
        .with_lifecycle(Lifecycle::Active)
        .with_model_state(ModelState::Streaming)
        .with_epoch(1)
        .build();

    let result = reduce(state, EventBuilder::model_completed().with_epoch(0).build(&mut ids), &test_config());

    assert_eq!(result.state.model_state, ModelState::Streaming);
}

#[test]
fn retry_timer_fired_normal() {
    let mut ids = EventCounter::new();
    let state = StateBuilder::new("s1", "t1")
        .with_lifecycle(Lifecycle::Backoff)
        .with_model_state(ModelState::Error)
        .with_last_request_inputs(vec![user_input("test")])
        .build();

    let result = reduce(state, EventBuilder::retry_timer_fired(1).build(&mut ids), &test_config());

    assert_eq!(result.state.lifecycle, Lifecycle::Active);
    assert_eq!(result.state.model_state, ModelState::Streaming);
    assert_eq!(result.state.epoch, 1);

    assert!(result.effects.iter().any(|e| matches!(e, Effect::StartModel { epoch: 1, .. })));
}

#[test]
fn retry_timer_fired_ignored_when_active() {
    let mut ids = EventCounter::new();
    let state = StateBuilder::new("s1", "t1")
        .with_lifecycle(Lifecycle::Active)
        .with_model_state(ModelState::Streaming)
        .build();

    let result = reduce(state, EventBuilder::retry_timer_fired(1).build(&mut ids), &test_config());

    assert_eq!(result.state.lifecycle, Lifecycle::Active);
}

#[test]
fn transient_error_schedules_retry() {
    let mut ids = EventCounter::new();
    let state = StateBuilder::new("s1", "t1")
        .with_lifecycle(Lifecycle::Active)
        .with_model_state(ModelState::Streaming)
        .build();

    let result = reduce(state, EventBuilder::transient_error("timeout").with_epoch(0).build(&mut ids), &test_config());

    assert_eq!(result.state.lifecycle, Lifecycle::Backoff);
    assert_eq!(result.state.model_state, ModelState::Error);
    assert_eq!(result.state.retry_attempt, 1);

    assert!(result.effects.iter().any(|e| matches!(e, Effect::ScheduleRetry { .. })));
}

#[test]
fn transient_error_fails_when_exhausted() {
    let mut ids = EventCounter::new();
    let state = StateBuilder::new("s1", "t1")
        .with_lifecycle(Lifecycle::Active)
        .with_model_state(ModelState::Streaming)
        .with_retry_attempt(3)
        .build();

    let result = reduce(state, EventBuilder::transient_error("timeout").with_epoch(0).build(&mut ids), &test_config());

    assert_eq!(result.state.lifecycle, Lifecycle::Failed);

    assert!(result.run_events.iter().any(|e| matches!(e, RunStreamEvent::TurnFailed { .. })));
}

#[test]
fn transient_error_ignored_wrong_epoch() {
    let mut ids = EventCounter::new();
    let state = StateBuilder::new("s1", "t1")
        .with_lifecycle(Lifecycle::Active)
        .with_model_state(ModelState::Streaming)
        .with_epoch(1)
        .build();

    let result = reduce(state, EventBuilder::transient_error("timeout").with_epoch(0).build(&mut ids), &test_config());

    assert_eq!(result.state.lifecycle, Lifecycle::Active);
}

#[test]
fn fatal_error_always_fails() {
    let mut ids = EventCounter::new();
    let state = StateBuilder::new("s1", "t1")
        .with_lifecycle(Lifecycle::Active)
        .with_model_state(ModelState::Streaming)
        .build();

    let result = reduce(state, EventBuilder::fatal_error("something went wrong").build(&mut ids), &test_config());

    assert_eq!(result.state.lifecycle, Lifecycle::Failed);
    assert_eq!(result.state.model_state, ModelState::Error);

    assert!(result.run_events.iter().any(|e| matches!(e, RunStreamEvent::TurnFailed { .. })));
}

#[test]
fn cancel_requested_fails_turn() {
    let mut ids = EventCounter::new();
    let state = StateBuilder::new("s1", "t1")
        .with_lifecycle(Lifecycle::Active)
        .with_model_state(ModelState::Streaming)
        .with_inflight_tool("c1", tool_call("c1", "echo", "{}"))
        .build();

    let result = reduce(state, EventBuilder::cancel_requested().build(&mut ids), &test_config());

    assert_eq!(result.state.lifecycle, Lifecycle::Failed);

    assert!(result.effects.iter().any(|e| matches!(e, Effect::CancelInflightTools)));
}

#[test]
fn done_state_ignores_events() {
    let mut ids = EventCounter::new();
    let done_state = || {
        StateBuilder::new("s1", "t1")
            .with_lifecycle(Lifecycle::Done)
            .with_model_state(ModelState::Completed)
            .with_done_emitted(true)
            .build()
    };

    let events = vec![
        EventBuilder::model_text_delta("hello").with_epoch(0).build(&mut ids),
        EventBuilder::tool_result_ok("c1", "\"result\"").build(&mut ids),
        EventBuilder::input_injected(user_input("test")).build(&mut ids),
    ];

    for event in events {
        let result = reduce(done_state(), event, &test_config());
        assert_eq!(result.state.lifecycle, Lifecycle::Done);
    }
}

#[test]
fn failed_state_ignores_events() {
    let mut ids = EventCounter::new();
    let state = StateBuilder::new("s1", "t1")
        .with_lifecycle(Lifecycle::Failed)
        .with_model_state(ModelState::Error)
        .build();

    let result = reduce(state, EventBuilder::model_text_delta("hello").with_epoch(0).build(&mut ids), &test_config());

    assert_eq!(result.state.lifecycle, Lifecycle::Failed);
}

#[test]
fn duplicate_event_id_ignored() {
    let state = StateBuilder::new("s1", "t1").with_seen_event("e1").build();

    let result = reduce(
        state,
        RuntimeEvent::ModelTextDelta { event_id: "e1".into(), epoch: 0, delta: "hello".into() },
        &test_config(),
    );

    assert!(result.state.output_buffer.is_empty());
}

#[test]
fn sequence_simple_text_conversation() {
    let mut ids = EventCounter::new();
    let state = StateBuilder::new("s1", "t1").build();
    let cfg = test_config();

    let final_state = ScenarioRunner::new(state, &cfg)
        .push(EventBuilder::turn_started("t1", user_input("hi")).build(&mut ids))
        .push(EventBuilder::model_text_delta("hello").with_epoch(0).build(&mut ids))
        .push(EventBuilder::model_completed().with_epoch(0).build(&mut ids))
        .run()
        .into_state();

    assert_eq!(final_state.lifecycle, Lifecycle::Done);
    assert_eq!(final_state.output_buffer, "hello");
    assert!(final_state.done_emitted);
}

#[test]
fn sequence_tool_call_complete_flow() {
    let mut ids = EventCounter::new();
    let state = StateBuilder::new("s1", "t1").build();
    let cfg = test_config();

    let result = ScenarioRunner::new(state, &cfg)
        .push(EventBuilder::turn_started("t1", user_input("use echo")).build(&mut ids))
        .push(EventBuilder::model_tool_call("c1", "echo", "{}").with_epoch(0).build(&mut ids))
        .push(EventBuilder::tool_dispatched("c1").with_epoch(0).build(&mut ids))
        .push(EventBuilder::model_completed().with_epoch(0).build(&mut ids))
        .push(EventBuilder::tool_result_ok("c1", "\"tool result\"").build(&mut ids))
        .push(EventBuilder::model_text_delta("result").with_epoch(1).build(&mut ids))
        .push(EventBuilder::model_completed().with_epoch(1).build(&mut ids))
        .run();

    assert_eq!(result.state().epoch, 1);

    assert_eq!(result.state().lifecycle, Lifecycle::Done);
}

#[test]
fn sequence_multiple_tools_parallel() {
    let mut ids = EventCounter::new();
    let state = StateBuilder::new("s1", "t1").build();
    let cfg = test_config();

    let state = reduce(state, EventBuilder::turn_started("t1", user_input("run all")).build(&mut ids), &cfg).state;
    let state = reduce(state, EventBuilder::model_tool_call("c1", "tool1", "{}").with_epoch(0).build(&mut ids), &cfg).state;
    let state = reduce(state, EventBuilder::model_tool_call("c2", "tool2", "{}").with_epoch(0).build(&mut ids), &cfg).state;
    let state = reduce(state, EventBuilder::model_tool_call("c3", "tool3", "{}").with_epoch(0).build(&mut ids), &cfg).state;

    assert_eq!(state.inflight_tools.len(), 3);

    let state = reduce(state, EventBuilder::model_completed().with_epoch(0).build(&mut ids), &cfg).state;

    assert_eq!(state.model_state, ModelState::Completed);
    assert!(!state.done_emitted);

    let state = reduce(state, EventBuilder::tool_result_ok("c1", "\"r1\"").build(&mut ids), &cfg).state;
    let state = reduce(state, EventBuilder::tool_result_ok("c2", "\"r2\"").build(&mut ids), &cfg).state;
    let state = reduce(state, EventBuilder::tool_result_ok("c3", "\"r3\"").build(&mut ids), &cfg).state;

    assert_eq!(state.epoch, 1);
}

#[test]
fn sequence_transient_error_retry() {
    let mut ids = EventCounter::new();
    let state = StateBuilder::new("s1", "t1").build();
    let cfg = test_config();

    let state = reduce(state, EventBuilder::turn_started("t1", user_input("test")).build(&mut ids), &cfg).state;
    let state = reduce(state, EventBuilder::model_text_delta("hello").with_epoch(0).build(&mut ids), &cfg).state;

    let backoff = reduce(state, EventBuilder::transient_error("timeout").with_epoch(0).build(&mut ids), &cfg);
    assert_eq!(backoff.state.lifecycle, Lifecycle::Backoff);

    let retry = reduce(backoff.state, EventBuilder::retry_timer_fired(1).build(&mut ids), &cfg);
    assert_eq!(retry.state.epoch, 1);
    assert_eq!(retry.state.lifecycle, Lifecycle::Active);

    let state = reduce(retry.state, EventBuilder::model_text_delta("world").with_epoch(1).build(&mut ids), &cfg).state;
    let state = reduce(state, EventBuilder::model_completed().with_epoch(1).build(&mut ids), &cfg).state;

    assert_eq!(state.lifecycle, Lifecycle::Done);
}

#[test]
fn sequence_cancel_during_tool_call() {
    let mut ids = EventCounter::new();
    let state = StateBuilder::new("s1", "t1").build();
    let cfg = test_config();

    let state = reduce(state, EventBuilder::turn_started("t1", user_input("test")).build(&mut ids), &cfg).state;
    let state = reduce(state, EventBuilder::model_tool_call("c1", "echo", "{}").with_epoch(0).build(&mut ids), &cfg).state;

    let result = reduce(state, EventBuilder::cancel_requested().build(&mut ids), &cfg);

    assert_eq!(result.state.lifecycle, Lifecycle::Failed);

    assert!(result.effects.iter().any(|e| matches!(e, Effect::CancelInflightTools)));
}

#[test]
fn sequence_tool_failure_recovery() {
    let mut ids = EventCounter::new();
    let state = StateBuilder::new("s1", "t1").build();
    let cfg = test_config();

    let state = reduce(state, EventBuilder::turn_started("t1", user_input("use tool")).build(&mut ids), &cfg).state;
    let state = reduce(
        state,
        EventBuilder::model_tool_call("c1", "failing_tool", "{}").with_epoch(0).build(&mut ids),
        &cfg,
    )
    .state;
    let state = reduce(state, EventBuilder::tool_result_err("c1", "tool failed").build(&mut ids), &cfg).state;
    let state = reduce(state, EventBuilder::model_text_delta("error occurred").with_epoch(0).build(&mut ids), &cfg).state;
    let state = reduce(state, EventBuilder::model_completed().with_epoch(0).build(&mut ids), &cfg).state;

    assert_eq!(state.epoch, 1);

    let state = reduce(state, EventBuilder::model_text_delta("done").with_epoch(1).build(&mut ids), &cfg).state;
    let state = reduce(state, EventBuilder::model_completed().with_epoch(1).build(&mut ids), &cfg).state;

    assert_eq!(state.lifecycle, Lifecycle::Done);
}

#[test]
fn sequence_input_injection_during_completion() {
    let mut ids = EventCounter::new();
    let state = StateBuilder::new("s1", "t1").build();
    let cfg = test_config();

    let state = reduce(state, EventBuilder::turn_started("t1", user_input("first")).build(&mut ids), &cfg).state;
    let state = reduce(state, EventBuilder::input_injected(user_input("second")).build(&mut ids), &cfg).state;
    let state = reduce(state, EventBuilder::model_completed().with_epoch(0).build(&mut ids), &cfg).state;

    assert_eq!(state.epoch, 1);
    assert_eq!(state.model_state, ModelState::Streaming);

    let state = reduce(state, EventBuilder::model_text_delta("response").with_epoch(1).build(&mut ids), &cfg).state;
    let state = reduce(state, EventBuilder::model_completed().with_epoch(1).build(&mut ids), &cfg).state;

    assert_eq!(state.lifecycle, Lifecycle::Done);
}
