//! The turn reducer: one event in, one step out.
use vstd::arithmetic::power2::{lemma_pow2_unfold, pow2};
use vstd::prelude::*;
use vstd::string::StringExecFns;

use crate::dup::{duplicate_vec, views, Duplicate};
use crate::effect::Effect;
use crate::events::{RunStreamEvent, ToolCallStatus, TurnStats, UiThreadEvent};
use crate::model::{is_uuid_v4_text, new_id, InputEnvelope, ToolCall, ToolResult, Usage};
use crate::runtime_event::RuntimeEvent;
use crate::state::{call_views, Lifecycle, ModelState, TurnEngineConfig, TurnState};
use crate::transcript::{NoteLevel, TranscriptItem};
use crate::transition::Transition;
use crate::turn_spec;
use crate::turn_spec::FreshIdsView;

verus! {

/// Fresh identifiers for the records one event may make, one per kind.
pub struct FreshIds {
    pub user_message: String,
    pub tool_call: String,
    pub tool_result: String,
    pub tool_input: String,
    pub reasoning: String,
    pub assistant_message: String,
    pub system_note: String,
}

impl View for FreshIds {
    type V = FreshIdsView;

    open spec fn view(&self) -> FreshIdsView {
        FreshIdsView {
            user_message: self.user_message@,
            tool_call: self.tool_call@,
            tool_result: self.tool_result@,
            tool_input: self.tool_input@,
            reasoning: self.reasoning@,
            assistant_message: self.assistant_message@,
            system_note: self.system_note@,
        }
    }
}

impl FreshIds {
    /// A set of fresh random identifiers, each the text of a version 4 UUID.
    pub fn generate() -> (r: Self)
        ensures
            is_uuid_v4_text(r.user_message@),
            is_uuid_v4_text(r.tool_call@),
            is_uuid_v4_text(r.tool_result@),
            is_uuid_v4_text(r.tool_input@),
            is_uuid_v4_text(r.reasoning@),
            is_uuid_v4_text(r.assistant_message@),
            is_uuid_v4_text(r.system_note@),
    {
        FreshIds {
            user_message: new_id(),
            tool_call: new_id(),
            tool_result: new_id(),
            tool_input: new_id(),
            reasoning: new_id(),
            assistant_message: new_id(),
            system_note: new_id(),
        }
    }
}

proof fn lemma_call_views_insert(m: Map<Seq<char>, ToolCall>, k: Seq<char>, c: ToolCall)
    ensures
        call_views(m.insert(k, c)) == call_views(m).insert(k, c@),
{
    assert(call_views(m.insert(k, c)) =~= call_views(m).insert(k, c@));
}

proof fn lemma_call_views_remove(m: Map<Seq<char>, ToolCall>, k: Seq<char>)
    ensures
        call_views(m.remove(k)) == call_views(m).remove(k),
{
    assert(call_views(m.remove(k)) =~= call_views(m).remove(k));
}

proof fn lemma_call_views_dom(m: Map<Seq<char>, ToolCall>)
    ensures
        call_views(m).dom() == m.dom(),
{
    assert(call_views(m).dom() =~= m.dom());
}

fn is_active_epoch(state: &TurnState, epoch: u64) -> (r: bool)
    ensures
        r == turn_spec::is_active_epoch(state@, epoch),
{
    state.lifecycle == Lifecycle::Active && state.model_state == ModelState::Streaming && epoch
        == state.epoch
}

fn start_model_from_pending(tr: &mut Transition, next_epoch: u64)
    ensures
        final(tr)@ == turn_spec::start_model_from_pending(old(tr)@, next_epoch),
{
    let inputs = tr.state.drain_pending_inputs();
    if inputs.len() == 0 {
        assert(views(inputs@).len() == 0);
        assert(old(tr)@.state.pending_inputs =~= seq![]);
        assert(tr@.state == old(tr)@.state);
        return ;
    }
    tr.state.epoch = next_epoch;
    tr.state.lifecycle = Lifecycle::Active;
    tr.state.model_state = ModelState::Streaming;
    tr.state.last_request_inputs = duplicate_vec(&inputs);
    let transcript = duplicate_vec(&tr.state.transcript);
    tr.add_effect(Effect::StartModel { epoch: next_epoch, transcript, inputs });
}

fn fail_turn(tr: &mut Transition, message: String, ids: &FreshIds)
    ensures
        final(tr)@ == turn_spec::fail_turn(old(tr)@, message@, ids@),
{
    tr.state.lifecycle = Lifecycle::Failed;
    tr.state.model_state = ModelState::Error;
    tr.add_item(
        TranscriptItem::SystemNote {
            id: ids.system_note.clone(),
            level: NoteLevel::Error,
            message: message.clone(),
        },
    );
    let turn_id = tr.state.meta.turn_id.clone();
    tr.add_run_event(RunStreamEvent::TurnFailed { turn_id, message: message.clone() });
    let turn_id = tr.state.meta.turn_id.clone();
    tr.add_ui_event(UiThreadEvent::Error { turn_id, message });
    tr.add_effect(Effect::PersistCheckpoint);
}

fn maybe_finalize(tr: &mut Transition, ids: &FreshIds)
    ensures
        final(tr)@ == turn_spec::finalize(old(tr)@, ids@),
{
    if !tr.state.can_finish() {
        return ;
    }
    if !tr.state.reasoning_buffer.as_str().is_empty() {
        let text = tr.state.reasoning_buffer.clone();
        tr.add_item(TranscriptItem::Reasoning { id: ids.reasoning.clone(), text });
    }
    if !tr.state.output_buffer.as_str().is_empty() {
        let text = tr.state.output_buffer.clone();
        tr.add_item(TranscriptItem::AssistantMessage { id: ids.assistant_message.clone(), text });
    }
    tr.state.done_emitted = true;
    tr.state.lifecycle = Lifecycle::Done;
    let stats = TurnStats {
        tool_calls_count: tr.state.tool_calls_count(),
        total_input_tokens: tr.state.usage.input_tokens,
        total_output_tokens: tr.state.usage.output_tokens,
    };
    let final_message = if !tr.state.output_buffer.as_str().is_empty() {
        Some(tr.state.output_buffer.clone())
    } else {
        None
    };
    let summary = if !tr.state.output_buffer.as_str().is_empty() {
        Some(tr.state.output_buffer.clone())
    } else {
        None
    };
    let turn_id = tr.state.meta.turn_id.clone();
    tr.add_run_event(
        RunStreamEvent::TurnDone { turn_id, final_message, usage: tr.state.usage, stats },
    );
    let turn_id = tr.state.meta.turn_id.clone();
    tr.add_ui_event(UiThreadEvent::Done { turn_id, summary, stats });
    tr.add_effect(Effect::PersistCheckpoint);
}

fn on_tool_result(tr: &mut Transition, epoch: u64, result: ToolResult, is_error: bool, ids: &FreshIds)
    ensures
        final(tr)@ == turn_spec::apply_tool_result(old(tr)@, epoch, result@, is_error, ids@),
{
    if epoch != tr.state.epoch {
        return ;
    }
    let call_id = result.call_id.clone();
    proof {
        lemma_call_views_dom(tr.state.inflight_tools@);
    }
    if !tr.state.inflight_tools.contains_key(call_id.as_str()) {
        let mut message = String::from_str("tool result without inflight call: ");
        message.append(call_id.as_str());
        let turn_id = tr.state.meta.turn_id.clone();
        tr.add_run_event(RunStreamEvent::ProtocolWarning { turn_id, message });
        return ;
    }
    proof {
        lemma_call_views_remove(tr.state.inflight_tools@, call_id@);
    }
    tr.state.inflight_tools.remove(call_id.as_str());
    tr.add_item(TranscriptItem::ToolResult { id: ids.tool_result.clone(), epoch, result: result.duplicate() });
    let turn_id = tr.state.meta.turn_id.clone();
    if is_error {
        tr.add_run_event(RunStreamEvent::ToolExecutionError { turn_id, result: result.duplicate() });
        let turn_id = tr.state.meta.turn_id.clone();
        tr.add_ui_event(
            UiThreadEvent::ToolCallProgress {
                turn_id,
                call_id: call_id.clone(),
                status: ToolCallStatus::Failed,
            },
        );
    } else {
        tr.add_run_event(RunStreamEvent::ToolExecutionDone { turn_id, result: result.duplicate() });
        let turn_id = tr.state.meta.turn_id.clone();
        tr.add_ui_event(
            UiThreadEvent::ToolCallProgress {
                turn_id,
                call_id: call_id.clone(),
                status: ToolCallStatus::Completed,
            },
        );
    }
    let turn_id = tr.state.meta.turn_id.clone();
    tr.add_ui_event(UiThreadEvent::ToolCallCompleted { turn_id, result: result.duplicate() });
    tr.state.enqueue_input(InputEnvelope::tool_json_with_id(ids.tool_input.clone(), result.output));
    proof {
        lemma_call_views_dom(tr.state.inflight_tools@);
    }
    if tr.state.model_state == ModelState::Completed && tr.state.inflight_tools.is_empty() {
        let next_epoch = tr.state.epoch.saturating_add(1);
        start_model_from_pending(tr, next_epoch);
    }
}

/// The delay before retry number `attempt`: the base delay doubled once per
/// earlier attempt, at most ten times, saturating at `u64::MAX`.
pub fn backoff_ms(config: &TurnEngineConfig, attempt: u32) -> (r: u64)
    ensures
        r == turn_spec::backoff_delay(*config, attempt),
{
    let capped: u32 = if attempt.saturating_sub(1) < 10 {
        attempt.saturating_sub(1)
    } else {
        10
    };
    let mut multiplier: u64 = 1;
    let mut i: u32 = 0;
    proof {
        vstd::arithmetic::power2::lemma2_to64();
    }
    while i < capped
        invariant
            i <= capped <= 10,
            multiplier == pow2(i as nat),
        decreases capped - i,
    {
        proof {
            lemma_pow2_unfold((i + 1) as nat);
            vstd::arithmetic::power2::lemma2_to64();
        }
        multiplier = multiplier * 2;
        i = i + 1;
    }
    proof {
        assert(capped as nat == if attempt == 0 {
            0nat
        } else if attempt - 1 > 10 {
            10nat
        } else {
            (attempt - 1) as nat
        });
    }
    match config.retry_policy.base_delay_ms.checked_mul(multiplier) {
        Some(v) => v,
        None => u64::MAX,
    }
}

fn on_turn_started(tr: &mut Transition, turn_id: String, input: InputEnvelope, ids: &FreshIds)
    ensures
        final(tr)@ == turn_spec::on_turn_started(old(tr)@, turn_id@, input@, ids@),
{
    if turn_id != tr.state.meta.turn_id {
        let mut message = String::from_str("turn id mismatch: expected ");
        message.append(tr.state.meta.turn_id.as_str());
        message.append(", got ");
        message.append(turn_id.as_str());
        let own = tr.state.meta.turn_id.clone();
        tr.add_run_event(RunStreamEvent::ProtocolWarning { turn_id: own, message });
        return ;
    }
    tr.add_item(TranscriptItem::UserMessage { id: ids.user_message.clone(), input: input.duplicate() });
    tr.state.enqueue_input(input);
    let own = tr.state.meta.turn_id.clone();
    tr.add_run_event(RunStreamEvent::TurnStart { turn_id: own });
    start_model_from_pending(tr, 0);
    maybe_finalize(tr, ids);
}

fn on_text_delta(tr: &mut Transition, epoch: u64, delta: String, ids: &FreshIds)
    ensures
        final(tr)@ == turn_spec::on_text_delta(old(tr)@, epoch, delta@, ids@),
{
    if !is_active_epoch(&tr.state, epoch) {
        return ;
    }
    tr.state.output_buffer.append(delta.as_str());
    let turn_id = tr.state.meta.turn_id.clone();
    tr.add_ui_event(UiThreadEvent::MessageDelta { turn_id, delta });
    maybe_finalize(tr, ids);
}

fn on_reasoning_delta(tr: &mut Transition, epoch: u64, delta: String, ids: &FreshIds)
    ensures
        final(tr)@ == turn_spec::on_reasoning_delta(old(tr)@, epoch, delta@, ids@),
{
    if !is_active_epoch(&tr.state, epoch) {
        return ;
    }
    tr.state.reasoning_buffer.append(delta.as_str());
    let turn_id = tr.state.meta.turn_id.clone();
    tr.add_ui_event(UiThreadEvent::ReasoningDelta { turn_id, delta });
    maybe_finalize(tr, ids);
}

fn on_tool_call(tr: &mut Transition, epoch: u64, call: ToolCall, ids: &FreshIds)
    ensures
        final(tr)@ == turn_spec::on_tool_call(old(tr)@, epoch, call@, ids@),
{
    if !is_active_epoch(&tr.state, epoch) {
        return ;
    }
    let call_id = call.call_id.clone();
    proof {
        lemma_call_views_dom(tr.state.inflight_tools@);
    }
    if tr.state.inflight_tools.contains_key(call_id.as_str()) {
        let mut message = String::from_str("duplicate tool call id: ");
        message.append(call_id.as_str());
        let turn_id = tr.state.meta.turn_id.clone();
        tr.add_run_event(RunStreamEvent::ProtocolWarning { turn_id, message });
        return ;
    }
    let copy = call.duplicate();
    proof {
        lemma_call_views_insert(tr.state.inflight_tools@, call_id@, copy);
    }
    tr.state.inflight_tools.insert(call_id.clone(), copy);
    tr.add_item(TranscriptItem::ToolCall { id: ids.tool_call.clone(), epoch, call: call.duplicate() });
    let turn_id = tr.state.meta.turn_id.clone();
    tr.add_run_event(
        RunStreamEvent::ToolExecutionPlanned {
            turn_id,
            call_id: call_id.clone(),
            tool_name: call.tool_name.clone(),
        },
    );
    let turn_id = tr.state.meta.turn_id.clone();
    tr.add_ui_event(
        UiThreadEvent::ToolCallRequested { turn_id, call_id, tool_name: call.tool_name.clone() },
    );
    tr.add_effect(Effect::ExecuteTool { epoch, call });
    maybe_finalize(tr, ids);
}

fn on_tool_dispatched(tr: &mut Transition, epoch: u64, call_id: String, ids: &FreshIds)
    ensures
        final(tr)@ == turn_spec::on_tool_dispatched(old(tr)@, epoch, call_id@, ids@),
{
    if !is_active_epoch(&tr.state, epoch) {
        return ;
    }
    let tool_name = match tr.state.inflight_tools.get(call_id.as_str()) {
        Some(call) => Some(call.tool_name.clone()),
        None => None,
    };
    proof {
        lemma_call_views_dom(tr.state.inflight_tools@);
    }
    match tool_name {
        Some(tool_name) => {
            let turn_id = tr.state.meta.turn_id.clone();
            tr.add_run_event(
                RunStreamEvent::ToolExecutionStart { turn_id, call_id: call_id.clone(), tool_name },
            );
            let turn_id = tr.state.meta.turn_id.clone();
            tr.add_ui_event(
                UiThreadEvent::ToolCallProgress { turn_id, call_id, status: ToolCallStatus::Running },
            );
        },
        None => {},
    }
    maybe_finalize(tr, ids);
}

fn on_input_injected(tr: &mut Transition, input: InputEnvelope, ids: &FreshIds)
    ensures
        final(tr)@ == turn_spec::on_input_injected(old(tr)@, input@, ids@),
{
    tr.add_item(TranscriptItem::UserMessage { id: ids.user_message.clone(), input: input.duplicate() });
    let turn_id = tr.state.meta.turn_id.clone();
    tr.add_run_event(RunStreamEvent::InputInjected { turn_id, input_id: input.id.clone() });
    tr.state.enqueue_input(input);
    proof {
        lemma_call_views_dom(tr.state.inflight_tools@);
    }
    if tr.state.model_state == ModelState::Completed && tr.state.inflight_tools.is_empty() {
        let next_epoch = tr.state.epoch.saturating_add(1);
        start_model_from_pending(tr, next_epoch);
    }
    maybe_finalize(tr, ids);
}

fn on_model_completed(tr: &mut Transition, epoch: u64, usage: Option<Usage>, ids: &FreshIds)
    ensures
        final(tr)@ == turn_spec::on_model_completed(old(tr)@, epoch, usage, ids@),
{
    if !is_active_epoch(&tr.state, epoch) {
        return ;
    }
    match usage {
        Some(u) => tr.state.usage.merge(&u),
        None => {},
    }
    tr.state.model_state = ModelState::Completed;
    tr.state.retry_attempt = 0;
    let turn_id = tr.state.meta.turn_id.clone();
    tr.add_run_event(RunStreamEvent::ModelCompleted { turn_id, usage });
    proof {
        lemma_call_views_dom(tr.state.inflight_tools@);
    }
    if tr.state.inflight_tools.is_empty() && tr.state.pending_inputs.len() > 0 {
        let next_epoch = tr.state.epoch.saturating_add(1);
        start_model_from_pending(tr, next_epoch);
    }
    maybe_finalize(tr, ids);
}

fn on_retry_timer_fired(tr: &mut Transition, next_epoch: u64, ids: &FreshIds)
    ensures
        final(tr)@ == turn_spec::on_retry_timer_fired(old(tr)@, next_epoch, ids@),
{
    if tr.state.lifecycle != Lifecycle::Backoff {
        return ;
    }
    tr.state.lifecycle = Lifecycle::Active;
    tr.state.model_state = ModelState::Streaming;
    tr.state.epoch = next_epoch;
    let inputs = if tr.state.pending_inputs.len() == 0 {
        duplicate_vec(&tr.state.last_request_inputs)
    } else {
        tr.state.drain_pending_inputs()
    };
    assert(views(tr.state.pending_inputs@) =~= seq![]);
    if inputs.len() == 0 {
        fail_turn(tr, String::from_str("retry fired but no input available"), ids);
        return ;
    }
    tr.state.last_request_inputs = duplicate_vec(&inputs);
    let transcript = duplicate_vec(&tr.state.transcript);
    tr.add_effect(Effect::StartModel { epoch: next_epoch, transcript, inputs });
    maybe_finalize(tr, ids);
}

fn on_transient_error(
    tr: &mut Transition,
    epoch: u64,
    message: String,
    retry_after_ms: Option<u64>,
    config: &TurnEngineConfig,
    ids: &FreshIds,
)
    ensures
        final(tr)@ == turn_spec::on_transient_error(
            old(tr)@,
            epoch,
            message@,
            retry_after_ms,
            *config,
            ids@,
        ),
{
    if epoch != tr.state.epoch {
        return ;
    }
    tr.state.model_state = ModelState::Error;
    let attempt = tr.state.retry_attempt.saturating_add(1);
    let can_retry = attempt <= config.retry_policy.max_retries;
    let turn_id = tr.state.meta.turn_id.clone();
    tr.add_run_event(
        RunStreamEvent::TransientError { turn_id, message: message.clone(), can_retry },
    );
    if can_retry {
        tr.state.retry_attempt = attempt;
        tr.state.lifecycle = Lifecycle::Backoff;
        let delay_ms = match retry_after_ms {
            Some(d) => d,
            None => backoff_ms(config, attempt),
        };
        let next_epoch = tr.state.epoch.saturating_add(1);
        let turn_id = tr.state.meta.turn_id.clone();
        tr.add_run_event(RunStreamEvent::Retrying { turn_id, attempt, next_epoch, delay_ms });
        let turn_id = tr.state.meta.turn_id.clone();
        tr.add_ui_event(UiThreadEvent::Warning { turn_id, message });
        tr.add_effect(Effect::ScheduleRetry { delay_ms, next_epoch });
    } else {
        fail_turn(tr, message, ids);
    }
    maybe_finalize(tr, ids);
}

#[verifier::rlimit(40)]
fn dispatch(tr: &mut Transition, event: RuntimeEvent, config: &TurnEngineConfig, ids: &FreshIds)
    ensures
        final(tr)@ == turn_spec::handle_event(old(tr)@, event@, *config, ids@),
{
    match event {
        RuntimeEvent::TurnStarted { turn_id, input, .. } => {
            on_turn_started(tr, turn_id, input, ids);
        },
        RuntimeEvent::ModelTextDelta { epoch, delta, .. } => {
            on_text_delta(tr, epoch, delta, ids);
        },
        RuntimeEvent::ModelReasoningDelta { epoch, delta, .. } => {
            on_reasoning_delta(tr, epoch, delta, ids);
        },
        RuntimeEvent::ModelToolCall { epoch, call, .. } => {
            on_tool_call(tr, epoch, call, ids);
        },
        RuntimeEvent::ToolDispatched { epoch, call_id, .. } => {
            on_tool_dispatched(tr, epoch, call_id, ids);
        },
        RuntimeEvent::ToolResultOk { epoch, result, .. } => {
            on_tool_result(tr, epoch, result, false, ids);
            maybe_finalize(tr, ids);
        },
        RuntimeEvent::ToolResultErr { epoch, result, .. } => {
            on_tool_result(tr, epoch, result, true, ids);
            maybe_finalize(tr, ids);
        },
        RuntimeEvent::InputInjected { input, .. } => {
            on_input_injected(tr, input, ids);
        },
        RuntimeEvent::ModelCompleted { epoch, usage, .. } => {
            on_model_completed(tr, epoch, usage, ids);
        },
        RuntimeEvent::RetryTimerFired { next_epoch, .. } => {
            on_retry_timer_fired(tr, next_epoch, ids);
        },
        RuntimeEvent::TransientError { epoch, message, retry_after_ms, .. } => {
            on_transient_error(tr, epoch, message, retry_after_ms, config, ids);
        },
        RuntimeEvent::FatalError { message, .. } => {
            fail_turn(tr, message, ids);
            maybe_finalize(tr, ids);
        },
        RuntimeEvent::CancelRequested { reason, .. } => {
            let message = match reason {
                Some(r) => r,
                None => String::from_str("turn cancelled"),
            };
            fail_turn(tr, message, ids);
            tr.add_effect(Effect::CancelInflightTools);
            maybe_finalize(tr, ids);
        },
    }
}

/// Handles `event` in `state`, taking the identifiers of any records it makes from `ids`.
pub fn reduce_with_ids(
    state: TurnState,
    event: RuntimeEvent,
    config: &TurnEngineConfig,
    ids: &FreshIds,
) -> (tr: Transition)
    ensures
        tr@ == turn_spec::reduce_spec(state@, event@, *config, ids@),
{
    let mut tr = Transition::new(state);
    let seen = tr.state.mark_seen(event.id());
    if seen || tr.state.lifecycle == Lifecycle::Done || tr.state.lifecycle == Lifecycle::Failed {
        return tr;
    }
    dispatch(&mut tr, event, config, ids);
    tr
}

/// Handles `event` in `state`. Records made get fresh random identifiers (texts
/// of version 4 UUIDs); apart from those, the step is exactly `reduce_spec`.
pub fn reduce(state: TurnState, event: RuntimeEvent, config: &TurnEngineConfig) -> (tr: Transition)
    ensures
        exists|ids: FreshIdsView|
            ids.are_uuid_texts() && tr@ == turn_spec::reduce_spec(state@, event@, *config, ids),
{
    let ids = FreshIds::generate();
    assert(ids@.are_uuid_texts());
    reduce_with_ids(state, event, config, &ids)
}

} // verus!
