//! What handling one event does to a turn, stated over views.
//!
//! Items recorded in the transcript and the input made of a tool's output get
//! fresh identifiers. Those identifiers come from a `FreshIdsView`, one per
//! kind of record; one event makes at most one record of each kind.
use vstd::arithmetic::power2::pow2;
use vstd::prelude::*;

use crate::effect::EffectView;
use crate::events::{RunStreamEventView, ToolCallStatus, TurnStats, UiThreadEventView};
use crate::model::{json_input, merged_usage, sat_add, InputSource, InputEnvelopeView, ToolCallView, ToolResultView, Usage};
use crate::runtime_event::RuntimeEventView;
use crate::state::{Lifecycle, ModelState, TurnEngineConfig, TurnStateView};
use crate::transcript::{NoteLevel, TranscriptItemView};
use crate::transition::{quiet, TransitionView};

verus! {

/// Fresh identifiers for the records one event may make.
pub struct FreshIdsView {
    pub user_message: Seq<char>,
    pub tool_call: Seq<char>,
    pub tool_result: Seq<char>,
    pub tool_input: Seq<char>,
    pub reasoning: Seq<char>,
    pub assistant_message: Seq<char>,
    pub system_note: Seq<char>,
}

impl FreshIdsView {
    /// Whether every identifier is the text of a version 4 UUID.
    pub open spec fn are_uuid_texts(self) -> bool {
        &&& crate::model::is_uuid_v4_text(self.user_message)
        &&& crate::model::is_uuid_v4_text(self.tool_call)
        &&& crate::model::is_uuid_v4_text(self.tool_result)
        &&& crate::model::is_uuid_v4_text(self.tool_input)
        &&& crate::model::is_uuid_v4_text(self.reasoning)
        &&& crate::model::is_uuid_v4_text(self.assistant_message)
        &&& crate::model::is_uuid_v4_text(self.system_note)
    }
}

/// Model output of `epoch` counts only while the turn is active, the model is
/// streaming, and `epoch` is the current one.
pub open spec fn is_active_epoch(s: TurnStateView, epoch: u64) -> bool {
    s.lifecycle == Lifecycle::Active && s.model_state == ModelState::Streaming && epoch == s.epoch
}

/// Starts a model call of `next_epoch` with all pending inputs, if there are any.
pub open spec fn start_model_from_pending(t: TransitionView, next_epoch: u64) -> TransitionView {
    let inputs = t.state.pending_inputs;
    if inputs.len() == 0 {
        t
    } else {
        t.with_state(
            TurnStateView {
                pending_inputs: seq![],
                epoch: next_epoch,
                lifecycle: Lifecycle::Active,
                model_state: ModelState::Streaming,
                last_request_inputs: inputs,
                ..t.state
            },
        ).add_effect(EffectView::StartModel { epoch: next_epoch, transcript: t.state.transcript, inputs })
    }
}

/// Ends the turn as failed with `message`.
pub open spec fn fail_turn(t: TransitionView, message: Seq<char>, ids: FreshIdsView) -> TransitionView {
    let turn_id = t.state.meta.turn_id;
    t.with_state(
        TurnStateView { lifecycle: Lifecycle::Failed, model_state: ModelState::Error, ..t.state },
    ).add_item(
        TranscriptItemView::SystemNote { id: ids.system_note, level: NoteLevel::Error, message },
    ).add_run(RunStreamEventView::TurnFailed { turn_id, message }).add_ui(
        UiThreadEventView::Error { turn_id, message },
    ).add_effect(EffectView::PersistCheckpoint)
}

/// Ends the turn as done if it may finish: records the reasoning and the
/// answer, and announces the end once.
pub open spec fn finalize(t: TransitionView, ids: FreshIdsView) -> TransitionView {
    if !t.state.can_finish() {
        t
    } else {
        let t1 = if t.state.reasoning_buffer.len() > 0 {
            t.add_item(
                TranscriptItemView::Reasoning { id: ids.reasoning, text: t.state.reasoning_buffer },
            )
        } else {
            t
        };
        let t2 = if t1.state.output_buffer.len() > 0 {
            t1.add_item(
                TranscriptItemView::AssistantMessage {
                    id: ids.assistant_message,
                    text: t1.state.output_buffer,
                },
            )
        } else {
            t1
        };
        let s = TurnStateView { done_emitted: true, lifecycle: Lifecycle::Done, ..t2.state };
        let stats = TurnStats {
            tool_calls_count: s.tool_calls_count(),
            total_input_tokens: s.usage.input_tokens,
            total_output_tokens: s.usage.output_tokens,
        };
        let final_message = if s.output_buffer.len() > 0 {
            Some(s.output_buffer)
        } else {
            None
        };
        t2.with_state(s).add_run(
            RunStreamEventView::TurnDone {
                turn_id: s.meta.turn_id,
                final_message,
                usage: s.usage,
                stats,
            },
        ).add_ui(UiThreadEventView::Done { turn_id: s.meta.turn_id, summary: final_message, stats }).add_effect(
            EffectView::PersistCheckpoint,
        )
    }
}

/// Handles the result of a tool call of `epoch`.
pub open spec fn apply_tool_result(
    t: TransitionView,
    epoch: u64,
    result: ToolResultView,
    is_error: bool,
    ids: FreshIdsView,
) -> TransitionView {
    let turn_id = t.state.meta.turn_id;
    let call_id = result.call_id;
    if epoch != t.state.epoch {
        t
    } else if !t.state.inflight_tools.contains_key(call_id) {
        t.add_run(
            RunStreamEventView::ProtocolWarning {
                turn_id,
                message: "tool result without inflight call: "@ + call_id,
            },
        )
    } else {
        let t1 = t.with_state(
            TurnStateView { inflight_tools: t.state.inflight_tools.remove(call_id), ..t.state },
        ).add_item(TranscriptItemView::ToolResult { id: ids.tool_result, epoch, result });
        let t2 = if is_error {
            t1.add_run(RunStreamEventView::ToolExecutionError { turn_id, result }).add_ui(
                UiThreadEventView::ToolCallProgress { turn_id, call_id, status: ToolCallStatus::Failed },
            )
        } else {
            t1.add_run(RunStreamEventView::ToolExecutionDone { turn_id, result }).add_ui(
                UiThreadEventView::ToolCallProgress {
                    turn_id,
                    call_id,
                    status: ToolCallStatus::Completed,
                },
            )
        };
        let t3 = t2.add_ui(UiThreadEventView::ToolCallCompleted { turn_id, result });
        let t4 = t3.with_state(
            TurnStateView {
                pending_inputs: t3.state.pending_inputs.push(
                    json_input(ids.tool_input, InputSource::Tool, result.output),
                ),
                ..t3.state
            },
        );
        if t4.state.model_state == ModelState::Completed && t4.state.inflight_tools.is_empty() {
            start_model_from_pending(t4, sat_add(t4.state.epoch, 1))
        } else {
            t4
        }
    }
}

/// The delay before retry number `attempt`: the base delay doubled once per
/// earlier attempt, at most ten times, saturating at `u64::MAX`.
pub open spec fn backoff_delay(c: TurnEngineConfig, attempt: u32) -> u64 {
    let doublings: nat = if attempt == 0 {
        0
    } else if attempt - 1 > 10 {
        10
    } else {
        (attempt - 1) as nat
    };
    let product = c.retry_policy.base_delay_ms * pow2(doublings);
    if product > u64::MAX {
        u64::MAX
    } else {
        product as u64
    }
}

/// The text of the warning for a turn-start event of another turn.
pub open spec fn turn_id_mismatch_message(expected: Seq<char>, got: Seq<char>) -> Seq<char> {
    "turn id mismatch: expected "@ + expected + ", got "@ + got
}

pub open spec fn on_turn_started(
    t: TransitionView,
    turn_id: Seq<char>,
    input: InputEnvelopeView,
    ids: FreshIdsView,
) -> TransitionView {
    let own = t.state.meta.turn_id;
    if turn_id != own {
        t.add_run(
            RunStreamEventView::ProtocolWarning {
                turn_id: own,
                message: turn_id_mismatch_message(own, turn_id),
            },
        )
    } else {
        let t1 = t.add_item(TranscriptItemView::UserMessage { id: ids.user_message, input });
        let t2 = t1.with_state(
            TurnStateView { pending_inputs: t1.state.pending_inputs.push(input), ..t1.state },
        ).add_run(RunStreamEventView::TurnStart { turn_id: own });
        finalize(start_model_from_pending(t2, 0), ids)
    }
}

pub open spec fn on_text_delta(t: TransitionView, epoch: u64, delta: Seq<char>, ids: FreshIdsView) -> TransitionView {
    if !is_active_epoch(t.state, epoch) {
        t
    } else {
        finalize(
            t.with_state(
                TurnStateView { output_buffer: t.state.output_buffer + delta, ..t.state },
            ).add_ui(UiThreadEventView::MessageDelta { turn_id: t.state.meta.turn_id, delta }),
            ids,
        )
    }
}

pub open spec fn on_reasoning_delta(
    t: TransitionView,
    epoch: u64,
    delta: Seq<char>,
    ids: FreshIdsView,
) -> TransitionView {
    if !is_active_epoch(t.state, epoch) {
        t
    } else {
        finalize(
            t.with_state(
                TurnStateView { reasoning_buffer: t.state.reasoning_buffer + delta, ..t.state },
            ).add_ui(UiThreadEventView::ReasoningDelta { turn_id: t.state.meta.turn_id, delta }),
            ids,
        )
    }
}

pub open spec fn on_tool_call(t: TransitionView, epoch: u64, call: ToolCallView, ids: FreshIdsView) -> TransitionView {
    let turn_id = t.state.meta.turn_id;
    if !is_active_epoch(t.state, epoch) {
        t
    } else if t.state.inflight_tools.contains_key(call.call_id) {
        t.add_run(
            RunStreamEventView::ProtocolWarning {
                turn_id,
                message: "duplicate tool call id: "@ + call.call_id,
            },
        )
    } else {
        finalize(
            t.with_state(
                TurnStateView {
                    inflight_tools: t.state.inflight_tools.insert(call.call_id, call),
                    ..t.state
                },
            ).add_item(TranscriptItemView::ToolCall { id: ids.tool_call, epoch, call }).add_run(
                RunStreamEventView::ToolExecutionPlanned {
                    turn_id,
                    call_id: call.call_id,
                    tool_name: call.tool_name,
                },
            ).add_ui(
                UiThreadEventView::ToolCallRequested {
                    turn_id,
                    call_id: call.call_id,
                    tool_name: call.tool_name,
                },
            ).add_effect(EffectView::ExecuteTool { epoch, call }),
            ids,
        )
    }
}

pub open spec fn on_tool_dispatched(
    t: TransitionView,
    epoch: u64,
    call_id: Seq<char>,
    ids: FreshIdsView,
) -> TransitionView {
    let turn_id = t.state.meta.turn_id;
    if !is_active_epoch(t.state, epoch) {
        t
    } else if t.state.inflight_tools.contains_key(call_id) {
        finalize(
            t.add_run(
                RunStreamEventView::ToolExecutionStart {
                    turn_id,
                    call_id,
                    tool_name: t.state.inflight_tools[call_id].tool_name,
                },
            ).add_ui(
                UiThreadEventView::ToolCallProgress {
                    turn_id,
                    call_id,
                    status: ToolCallStatus::Running,
                },
            ),
            ids,
        )
    } else {
        finalize(t, ids)
    }
}

pub open spec fn on_input_injected(t: TransitionView, input: InputEnvelopeView, ids: FreshIdsView) -> TransitionView {
    let turn_id = t.state.meta.turn_id;
    let t1 = t.add_item(TranscriptItemView::UserMessage { id: ids.user_message, input }).add_run(
        RunStreamEventView::InputInjected { turn_id, input_id: input.id },
    );
    let t2 = t1.with_state(
        TurnStateView { pending_inputs: t1.state.pending_inputs.push(input), ..t1.state },
    );
    let t3 = if t2.state.model_state == ModelState::Completed && t2.state.inflight_tools.is_empty() {
        start_model_from_pending(t2, sat_add(t2.state.epoch, 1))
    } else {
        t2
    };
    finalize(t3, ids)
}

pub open spec fn on_model_completed(
    t: TransitionView,
    epoch: u64,
    usage: Option<Usage>,
    ids: FreshIdsView,
) -> TransitionView {
    if !is_active_epoch(t.state, epoch) {
        t
    } else {
        let merged = match usage {
            Some(u) => merged_usage(t.state.usage, u),
            None => t.state.usage,
        };
        let t1 = t.with_state(
            TurnStateView {
                usage: merged,
                model_state: ModelState::Completed,
                retry_attempt: 0,
                ..t.state
            },
        ).add_run(RunStreamEventView::ModelCompleted { turn_id: t.state.meta.turn_id, usage });
        let t2 = if t1.state.inflight_tools.is_empty() && t1.state.pending_inputs.len() > 0 {
            start_model_from_pending(t1, sat_add(t1.state.epoch, 1))
        } else {
            t1
        };
        finalize(t2, ids)
    }
}

pub open spec fn on_retry_timer_fired(t: TransitionView, next_epoch: u64, ids: FreshIdsView) -> TransitionView {
    if t.state.lifecycle != Lifecycle::Backoff {
        t
    } else {
        let s1 = TurnStateView {
            lifecycle: Lifecycle::Active,
            model_state: ModelState::Streaming,
            epoch: next_epoch,
            ..t.state
        };
        let inputs = if s1.pending_inputs.len() == 0 {
            s1.last_request_inputs
        } else {
            s1.pending_inputs
        };
        let s2 = TurnStateView { pending_inputs: seq![], ..s1 };
        if inputs.len() == 0 {
            fail_turn(t.with_state(s2), "retry fired but no input available"@, ids)
        } else {
            finalize(
                t.with_state(TurnStateView { last_request_inputs: inputs, ..s2 }).add_effect(
                    EffectView::StartModel { epoch: next_epoch, transcript: s2.transcript, inputs },
                ),
                ids,
            )
        }
    }
}

pub open spec fn on_transient_error(
    t: TransitionView,
    epoch: u64,
    message: Seq<char>,
    retry_after_ms: Option<u64>,
    c: TurnEngineConfig,
    ids: FreshIdsView,
) -> TransitionView {
    let turn_id = t.state.meta.turn_id;
    if epoch != t.state.epoch {
        t
    } else {
        let attempt: u32 = if t.state.retry_attempt == u32::MAX {
            u32::MAX
        } else {
            (t.state.retry_attempt + 1) as u32
        };
        let can_retry = attempt <= c.retry_policy.max_retries;
        let t1 = t.with_state(TurnStateView { model_state: ModelState::Error, ..t.state }).add_run(
            RunStreamEventView::TransientError { turn_id, message, can_retry },
        );
        let t2 = if can_retry {
            let delay_ms = match retry_after_ms {
                Some(d) => d,
                None => backoff_delay(c, attempt),
            };
            let next_epoch = sat_add(t1.state.epoch, 1);
            t1.with_state(
                TurnStateView {
                    retry_attempt: attempt,
                    lifecycle: Lifecycle::Backoff,
                    ..t1.state
                },
            ).add_run(RunStreamEventView::Retrying { turn_id, attempt, next_epoch, delay_ms }).add_ui(
                UiThreadEventView::Warning { turn_id, message },
            ).add_effect(EffectView::ScheduleRetry { delay_ms, next_epoch })
        } else {
            fail_turn(t1, message, ids)
        };
        finalize(t2, ids)
    }
}

/// The message a cancellation fails the turn with.
pub open spec fn cancel_message(reason: Option<Seq<char>>) -> Seq<char> {
    match reason {
        Some(r) => r,
        None => "turn cancelled"@,
    }
}

/// Handles an event that is neither a repeat nor addressed to an ended turn.
pub open spec fn handle_event(
    t: TransitionView,
    e: RuntimeEventView,
    c: TurnEngineConfig,
    ids: FreshIdsView,
) -> TransitionView {
    match e {
        RuntimeEventView::TurnStarted { turn_id, input, .. } => on_turn_started(t, turn_id, input, ids),
        RuntimeEventView::ModelTextDelta { epoch, delta, .. } => on_text_delta(t, epoch, delta, ids),
        RuntimeEventView::ModelReasoningDelta { epoch, delta, .. } => on_reasoning_delta(
            t,
            epoch,
            delta,
            ids,
        ),
        RuntimeEventView::ModelToolCall { epoch, call, .. } => on_tool_call(t, epoch, call, ids),
        RuntimeEventView::ToolDispatched { epoch, call_id, .. } => on_tool_dispatched(
            t,
            epoch,
            call_id,
            ids,
        ),
        RuntimeEventView::ToolResultOk { epoch, result, .. } => finalize(
            apply_tool_result(t, epoch, result, false, ids),
            ids,
        ),
        RuntimeEventView::ToolResultErr { epoch, result, .. } => finalize(
            apply_tool_result(t, epoch, result, true, ids),
            ids,
        ),
        RuntimeEventView::InputInjected { input, .. } => on_input_injected(t, input, ids),
        RuntimeEventView::ModelCompleted { epoch, usage, .. } => on_model_completed(
            t,
            epoch,
            usage,
            ids,
        ),
        RuntimeEventView::RetryTimerFired { next_epoch, .. } => on_retry_timer_fired(
            t,
            next_epoch,
            ids,
        ),
        RuntimeEventView::TransientError { epoch, message, retry_after_ms, .. } =>
            on_transient_error(t, epoch, message, retry_after_ms, c, ids),
        RuntimeEventView::FatalError { message, .. } => finalize(fail_turn(t, message, ids), ids),
        RuntimeEventView::CancelRequested { reason, .. } => finalize(
            fail_turn(t, cancel_message(reason), ids).add_effect(EffectView::CancelInflightTools),
            ids,
        ),
    }
}

/// One step of a turn in state `s` on event `e`. The event's id is recorded
/// as handled; an event whose id was handled before, or one that reaches a
/// turn that has ended, changes nothing else and produces nothing.
pub open spec fn reduce_spec(
    s: TurnStateView,
    e: RuntimeEventView,
    c: TurnEngineConfig,
    ids: FreshIdsView,
) -> TransitionView {
    let t = quiet(TurnStateView { seen_event_ids: s.seen_event_ids.insert(e.event_id()), ..s });
    if s.seen_event_ids.contains(e.event_id()) || s.is_terminal() {
        t
    } else {
        handle_event(t, e, c, ids)
    }
}

} // verus!
