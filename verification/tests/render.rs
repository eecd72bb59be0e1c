use argusx::events::{ToolCallStatus, TurnStats, UiThreadEvent};
use argusx::render::{close_reasoning_line, finalize_ui_render, handle_ui_event, UiRenderState};

fn ui_event_turn_id() -> String {
    "turn-1".to_string()
}

#[test]
fn reasoning_streams_on_single_prefixed_line() {
    let mut stdout = String::new();
    let mut stderr = String::new();
    let mut state = UiRenderState::default();

    handle_ui_event(
        &UiThreadEvent::ReasoningDelta { turn_id: ui_event_turn_id(), delta: "step1 ".to_string() },
        false,
        &mut stdout,
        &mut stderr,
        &mut state,
    );
    handle_ui_event(
        &UiThreadEvent::ReasoningDelta { turn_id: ui_event_turn_id(), delta: "step2".to_string() },
        false,
        &mut stdout,
        &mut stderr,
        &mut state,
    );
    handle_ui_event(
        &UiThreadEvent::Done { turn_id: ui_event_turn_id(), summary: None, stats: TurnStats::default() },
        false,
        &mut stdout,
        &mut stderr,
        &mut state,
    );
    finalize_ui_render(false, &mut stdout, &mut stderr, &mut state);

    assert!(stderr.starts_with("[reasoning] step1 step2\n"));
    assert_eq!(stderr, "[reasoning] step1 step2\n[done] stats: tools=0 input_tokens=0 output_tokens=0\n");
}

#[test]
fn message_delta_closes_reasoning_line_before_stdout_stream() {
    let mut stdout = String::new();
    let mut stderr = String::new();
    let mut state = UiRenderState::default();

    handle_ui_event(
        &UiThreadEvent::ReasoningDelta { turn_id: ui_event_turn_id(), delta: "thinking".to_string() },
        false,
        &mut stdout,
        &mut stderr,
        &mut state,
    );
    handle_ui_event(
        &UiThreadEvent::MessageDelta { turn_id: ui_event_turn_id(), delta: "answer".to_string() },
        false,
        &mut stdout,
        &mut stderr,
        &mut state,
    );
    finalize_ui_render(false, &mut stdout, &mut stderr, &mut state);

    assert_eq!(stderr, "[reasoning] thinking\n");
    assert_eq!(stdout, "\nanswer\n");
}

#[test]
fn json_mode_renders_nothing() {
    let mut stdout = String::new();
    let mut stderr = String::new();
    let mut state = UiRenderState::default();
    handle_ui_event(
        &UiThreadEvent::MessageDelta { turn_id: ui_event_turn_id(), delta: "x".to_string() },
        true,
        &mut stdout,
        &mut stderr,
        &mut state,
    );
    finalize_ui_render(true, &mut stdout, &mut stderr, &mut state);
    assert_eq!(stdout, "");
    assert_eq!(stderr, "");
    assert_eq!(state, UiRenderState::default());
}

#[test]
fn notices_close_the_reasoning_line() {
    let mut stdout = String::new();
    let mut stderr = String::new();
    let mut state = UiRenderState::default();
    handle_ui_event(
        &UiThreadEvent::ReasoningDelta { turn_id: ui_event_turn_id(), delta: "hm".to_string() },
        false,
        &mut stdout,
        &mut stderr,
        &mut state,
    );
    handle_ui_event(
        &UiThreadEvent::ToolCallRequested {
            turn_id: ui_event_turn_id(),
            call_id: "c1".to_string(),
            tool_name: "echo".to_string(),
        },
        false,
        &mut stdout,
        &mut stderr,
        &mut state,
    );
    handle_ui_event(
        &UiThreadEvent::ToolCallProgress {
            turn_id: ui_event_turn_id(),
            call_id: "c1".to_string(),
            status: ToolCallStatus::Running,
        },
        false,
        &mut stdout,
        &mut stderr,
        &mut state,
    );
    handle_ui_event(
        &UiThreadEvent::Warning { turn_id: ui_event_turn_id(), message: "careful".to_string() },
        false,
        &mut stdout,
        &mut stderr,
        &mut state,
    );
    handle_ui_event(
        &UiThreadEvent::Done {
            turn_id: ui_event_turn_id(),
            summary: Some("all good".to_string()),
            stats: TurnStats { tool_calls_count: 1, total_input_tokens: 12, total_output_tokens: 345 },
        },
        false,
        &mut stdout,
        &mut stderr,
        &mut state,
    );
    assert_eq!(
        stderr,
        "[reasoning] hm\n[tool] requested: echo (c1)\n[tool] progress: c1 -> Running\n[warning] careful\n[done] summary: all good\n[done] stats: tools=1 input_tokens=12 output_tokens=345\n"
    );
    assert_eq!(stdout, "");
}

#[test]
fn close_reasoning_line_reports_whether_it_closed() {
    let mut stderr = String::new();
    let mut state = UiRenderState { printed_text: false, reasoning_started: true, reasoning_open: true };
    assert!(close_reasoning_line(&mut stderr, &mut state));
    assert_eq!(stderr, "\n");
    assert!(!close_reasoning_line(&mut stderr, &mut state));
    assert_eq!(stderr, "\n");
}
