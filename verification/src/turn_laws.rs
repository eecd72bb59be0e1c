//! Properties that every step of a turn has.
use vstd::prelude::*;

use crate::effect::EffectView;
use crate::events::{RunStreamEventView, UiThreadEventView};
use crate::model::sat_add;
use crate::runtime_event::RuntimeEventView;
use crate::state::{Lifecycle, ModelState, TurnEngineConfig, TurnStateView};
use crate::transition::{quiet, TransitionView};
use crate::turn_spec::{backoff_delay, is_active_epoch, reduce_spec, FreshIdsView};
use vstd::arithmetic::power2::pow2;

verus! {

/// Whether a step announced the end of the turn.
pub open spec fn announces_done(t: TransitionView) -> bool {
    exists|i: int| 0 <= i < t.run_events.len() && #[trigger] t.run_events[i] is TurnDone
}

/// An event whose id was handled before leaves the turn as it is and produces nothing.
pub proof fn lemma_repeated_event_changes_nothing(
    s: TurnStateView,
    e: RuntimeEventView,
    c: TurnEngineConfig,
    ids: FreshIdsView,
)
    requires
        s.seen_event_ids.contains(e.event_id()),
    ensures
        reduce_spec(s, e, c, ids) == quiet(s),
{
    assert(s.seen_event_ids.insert(e.event_id()) =~= s.seen_event_ids);
}

/// A turn that has ended (done or failed) stays as it is on any event, apart
/// from recording the event's id, and produces nothing.
pub proof fn lemma_ended_turn_ignores_events(
    s: TurnStateView,
    e: RuntimeEventView,
    c: TurnEngineConfig,
    ids: FreshIdsView,
)
    requires
        s.is_terminal(),
    ensures
        reduce_spec(s, e, c, ids) == quiet(
            TurnStateView { seen_event_ids: s.seen_event_ids.insert(e.event_id()), ..s },
        ),
{
}

/// Model output of an epoch that is not the active one is ignored: the step
/// only records the event's id.
pub proof fn lemma_stale_model_output_ignored(
    s: TurnStateView,
    e: RuntimeEventView,
    c: TurnEngineConfig,
    ids: FreshIdsView,
)
    requires
        match e {
            RuntimeEventView::ModelTextDelta { epoch, .. } => !is_active_epoch(s, epoch),
            RuntimeEventView::ModelReasoningDelta { epoch, .. } => !is_active_epoch(s, epoch),
            RuntimeEventView::ModelToolCall { epoch, .. } => !is_active_epoch(s, epoch),
            RuntimeEventView::ModelCompleted { epoch, .. } => !is_active_epoch(s, epoch),
            RuntimeEventView::ToolDispatched { epoch, .. } => !is_active_epoch(s, epoch),
            RuntimeEventView::TransientError { epoch, .. } => epoch != s.epoch,
            _ => false,
        },
    ensures
        reduce_spec(s, e, c, ids) == quiet(
            TurnStateView { seen_event_ids: s.seen_event_ids.insert(e.event_id()), ..s },
        ),
{
}

/// Retries never go past the configured budget: a turn within its retry
/// budget stays within it.
pub proof fn lemma_retry_budget_respected(
    s: TurnStateView,
    e: RuntimeEventView,
    c: TurnEngineConfig,
    ids: FreshIdsView,
)
    requires
        s.retry_attempt <= c.retry_policy.max_retries,
    ensures
        reduce_spec(s, e, c, ids).state.retry_attempt <= c.retry_policy.max_retries,
{
}

/// Once the end of a turn has been announced it is never announced again,
/// and the turn stays marked as announced.
pub proof fn lemma_done_announced_once(
    s: TurnStateView,
    e: RuntimeEventView,
    c: TurnEngineConfig,
    ids: FreshIdsView,
)
    requires
        s.done_emitted,
    ensures
        reduce_spec(s, e, c, ids).state.done_emitted,
        !announces_done(reduce_spec(s, e, c, ids)),
{
}

/// Every step records the id of its event as handled.
pub proof fn lemma_event_id_recorded(
    s: TurnStateView,
    e: RuntimeEventView,
    c: TurnEngineConfig,
    ids: FreshIdsView,
)
    ensures
        reduce_spec(s, e, c, ids).state.seen_event_ids == s.seen_event_ids.insert(e.event_id()),
{
}

/// A turn becomes done only once the model has completed, no tool call is in
/// flight and no input waits; the step that makes it done announces it.
pub proof fn lemma_done_only_when_settled(
    s: TurnStateView,
    e: RuntimeEventView,
    c: TurnEngineConfig,
    ids: FreshIdsView,
)
    requires
        s.lifecycle != Lifecycle::Done,
        reduce_spec(s, e, c, ids).state.lifecycle == Lifecycle::Done,
    ensures
        reduce_spec(s, e, c, ids).state.model_state == ModelState::Completed,
        reduce_spec(s, e, c, ids).state.inflight_tools.is_empty(),
        reduce_spec(s, e, c, ids).state.pending_inputs.len() == 0,
        reduce_spec(s, e, c, ids).state.done_emitted,
        announces_done(reduce_spec(s, e, c, ids)),
{
    let r = reduce_spec(s, e, c, ids);
    assert(r.run_events.len() > 0);
    assert(r.run_events[r.run_events.len() - 1] is TurnDone);
}

/// A step that announces the end of the turn leaves the turn done and marked as announced.
pub proof fn lemma_announcement_means_done(
    s: TurnStateView,
    e: RuntimeEventView,
    c: TurnEngineConfig,
    ids: FreshIdsView,
)
    requires
        announces_done(reduce_spec(s, e, c, ids)),
    ensures
        reduce_spec(s, e, c, ids).state.lifecycle == Lifecycle::Done,
        reduce_spec(s, e, c, ids).state.done_emitted,
{
}

/// A tool call whose id is already in flight is not run a second time: the
/// step only warns, and leaves the calls in flight, the transcript and the
/// effects as they were.
pub proof fn lemma_duplicate_tool_call_ignored(
    s: TurnStateView,
    e: RuntimeEventView,
    c: TurnEngineConfig,
    ids: FreshIdsView,
)
    requires
        !s.seen_event_ids.contains(e.event_id()),
        !s.is_terminal(),
        e matches RuntimeEventView::ModelToolCall { epoch, call, .. } && is_active_epoch(s, epoch)
            && s.inflight_tools.contains_key(call.call_id),
    ensures
        reduce_spec(s, e, c, ids).state == (TurnStateView {
            seen_event_ids: s.seen_event_ids.insert(e.event_id()),
            ..s
        }),
        reduce_spec(s, e, c, ids).effects.len() == 0,
        reduce_spec(s, e, c, ids).new_items.len() == 0,
        reduce_spec(s, e, c, ids).run_events.len() == 1,
        reduce_spec(s, e, c, ids).run_events[0] is ProtocolWarning,
{
}

/// A fatal error or a cancellation ends a running turn as failed, with the
/// model in error; a cancellation also cancels the tool calls in flight.
pub proof fn lemma_fatal_and_cancel_fail_turn(
    s: TurnStateView,
    e: RuntimeEventView,
    c: TurnEngineConfig,
    ids: FreshIdsView,
)
    requires
        !s.seen_event_ids.contains(e.event_id()),
        !s.is_terminal(),
        e is FatalError || e is CancelRequested,
    ensures
        reduce_spec(s, e, c, ids).state.lifecycle == Lifecycle::Failed,
        reduce_spec(s, e, c, ids).state.model_state == ModelState::Error,
        exists|i: int|
            0 <= i < reduce_spec(s, e, c, ids).run_events.len() && #[trigger] reduce_spec(
                s,
                e,
                c,
                ids,
            ).run_events[i] is TurnFailed,
        e is CancelRequested ==> exists|i: int|
            0 <= i < reduce_spec(s, e, c, ids).effects.len() && #[trigger] reduce_spec(
                s,
                e,
                c,
                ids,
            ).effects[i] is CancelInflightTools,
{
    let r = reduce_spec(s, e, c, ids);
    assert(r.run_events[r.run_events.len() - 1] is TurnFailed);
    if e is CancelRequested {
        assert(r.effects[r.effects.len() - 1] is CancelInflightTools);
    }
}

/// A step keeps the session and turn of the state, records the event's id,
/// and grows the transcript by exactly the new items it reports, in order.
#[verifier::rlimit(60)]
pub proof fn lemma_step_grows_transcript(
    s: TurnStateView,
    e: RuntimeEventView,
    c: TurnEngineConfig,
    ids: FreshIdsView,
)
    ensures
        reduce_spec(s, e, c, ids).state.meta == s.meta,
        reduce_spec(s, e, c, ids).state.seen_event_ids == s.seen_event_ids.insert(e.event_id()),
        reduce_spec(s, e, c, ids).state.transcript =~= s.transcript + reduce_spec(
            s,
            e,
            c,
            ids,
        ).new_items,
{
    match e {
        RuntimeEventView::TurnStarted { .. } => {},
        RuntimeEventView::ModelTextDelta { .. } => {},
        RuntimeEventView::ModelReasoningDelta { .. } => {},
        RuntimeEventView::ModelToolCall { .. } => {},
        RuntimeEventView::ModelCompleted { .. } => {},
        RuntimeEventView::ToolDispatched { .. } => {},
        RuntimeEventView::ToolResultOk { .. } => {},
        RuntimeEventView::ToolResultErr { .. } => {},
        RuntimeEventView::InputInjected { .. } => {},
        RuntimeEventView::RetryTimerFired { .. } => {},
        RuntimeEventView::TransientError { .. } => {},
        RuntimeEventView::FatalError { .. } => {},
        RuntimeEventView::CancelRequested { .. } => {},
    }
}

/// One step announces the end of the turn at most once, and only when the end
/// had not been announced before.
pub proof fn lemma_at_most_one_done(
    s: TurnStateView,
    e: RuntimeEventView,
    c: TurnEngineConfig,
    ids: FreshIdsView,
)
    ensures
        forall|i: int, j: int|
            0 <= i < reduce_spec(s, e, c, ids).run_events.len() && 0 <= j < reduce_spec(
                s,
                e,
                c,
                ids,
            ).run_events.len() && #[trigger] reduce_spec(s, e, c, ids).run_events[i] is TurnDone
                && #[trigger] reduce_spec(s, e, c, ids).run_events[j] is TurnDone ==> i == j,
        announces_done(reduce_spec(s, e, c, ids)) ==> !s.done_emitted,
{
}

/// The delay before a retry never shrinks as the attempts grow.
pub proof fn lemma_backoff_non_decreasing(c: TurnEngineConfig, a: u32, b: u32)
    requires
        a <= b,
    ensures
        backoff_delay(c, a) <= backoff_delay(c, b),
{
    let da: nat = if a == 0 {
        0
    } else if a - 1 > 10 {
        10
    } else {
        (a - 1) as nat
    };
    let db: nat = if b == 0 {
        0
    } else if b - 1 > 10 {
        10
    } else {
        (b - 1) as nat
    };
    assert(da <= db);
    if da < db {
        vstd::arithmetic::power2::lemma_pow2_strictly_increases(da, db);
    }
    vstd::arithmetic::mul::lemma_mul_inequality(
        pow2(da) as int,
        pow2(db) as int,
        c.retry_policy.base_delay_ms as int,
    );
    assert(c.retry_policy.base_delay_ms * pow2(da) <= c.retry_policy.base_delay_ms * pow2(db)) by {
        vstd::arithmetic::mul::lemma_mul_is_commutative(
            pow2(da) as int,
            c.retry_policy.base_delay_ms as int,
        );
        vstd::arithmetic::mul::lemma_mul_is_commutative(
            pow2(db) as int,
            c.retry_policy.base_delay_ms as int,
        );
    }
}

/// The delay before a retry is at most the base delay doubled ten times.
pub proof fn lemma_backoff_capped(c: TurnEngineConfig, a: u32)
    ensures
        backoff_delay(c, a) <= c.retry_policy.base_delay_ms * 1024,
{
    let d: nat = if a == 0 {
        0
    } else if a - 1 > 10 {
        10
    } else {
        (a - 1) as nat
    };
    vstd::arithmetic::power2::lemma2_to64();
    if d < 10 {
        vstd::arithmetic::power2::lemma_pow2_strictly_increases(d, 10);
    }
    vstd::arithmetic::mul::lemma_mul_inequality(
        pow2(d) as int,
        1024,
        c.retry_policy.base_delay_ms as int,
    );
    vstd::arithmetic::mul::lemma_mul_is_commutative(pow2(d) as int, c.retry_policy.base_delay_ms as int);
}

/// A transient model error of the current epoch, in a turn that has retries
/// left, puts the turn in backoff and schedules a retry of the next epoch after
/// the delay the error asked for, or else the backoff delay of the attempt;
/// when that retry fires, the model is started again at the next epoch with the
/// waiting inputs, or else with those of the last request (and with none at all
/// the turn fails).
pub proof fn lemma_transient_error_then_retry(
    s: TurnStateView,
    error_id: Seq<char>,
    message: Seq<char>,
    retry_after_ms: Option<u64>,
    timer_id: Seq<char>,
    c: TurnEngineConfig,
    ids1: FreshIdsView,
    ids2: FreshIdsView,
)
    requires
        !s.is_terminal(),
        !s.seen_event_ids.contains(error_id),
        !s.seen_event_ids.contains(timer_id),
        timer_id != error_id,
        s.retry_attempt < c.retry_policy.max_retries,
    ensures
        ({
            let e1 = RuntimeEventView::TransientError {
                event_id: error_id,
                epoch: s.epoch,
                message,
                retry_after_ms,
            };
            let t1 = reduce_spec(s, e1, c, ids1);
            let turn_id = s.meta.turn_id;
            let attempt = (s.retry_attempt + 1) as u32;
            let next_epoch = sat_add(s.epoch, 1);
            let delay_ms = match retry_after_ms {
                Some(d) => d,
                None => backoff_delay(c, attempt),
            };
            let t2 = reduce_spec(
                t1.state,
                RuntimeEventView::RetryTimerFired { event_id: timer_id, next_epoch },
                c,
                ids2,
            );
            let inputs = if s.pending_inputs.len() == 0 {
                s.last_request_inputs
            } else {
                s.pending_inputs
            };
            &&& t1.state.lifecycle == Lifecycle::Backoff
            &&& t1.state.model_state == ModelState::Error
            &&& t1.state.retry_attempt == attempt
            &&& t1.state.epoch == s.epoch
            &&& t1.run_events == seq![
                RunStreamEventView::TransientError { turn_id, message, can_retry: true },
                RunStreamEventView::Retrying { turn_id, attempt, next_epoch, delay_ms },
            ]
            &&& t1.effects == seq![EffectView::ScheduleRetry { delay_ms, next_epoch }]
            &&& inputs.len() > 0 ==> {
                &&& t2.state.lifecycle == Lifecycle::Active
                &&& t2.state.model_state == ModelState::Streaming
                &&& t2.state.epoch == next_epoch
                &&& t2.state.pending_inputs.len() == 0
                &&& t2.state.last_request_inputs == inputs
                &&& t2.effects == seq![
                    EffectView::StartModel { epoch: next_epoch, transcript: s.transcript, inputs },
                ]
            }
            &&& inputs.len() == 0 ==> t2.state.lifecycle == Lifecycle::Failed
        }),
{
}

/// The end of a turn reports the turn's own totals: every done event of a step,
/// on the run stream and on the thread, carries the input and output token
/// counts and the tool-call count of the state the step leaves the turn in.
#[verifier::rlimit(60)]
pub proof fn lemma_done_reports_totals(
    s: TurnStateView,
    e: RuntimeEventView,
    c: TurnEngineConfig,
    ids: FreshIdsView,
)
    ensures
        forall|i: int|
            0 <= i < reduce_spec(s, e, c, ids).run_events.len() ==> (
            #[trigger] reduce_spec(s, e, c, ids).run_events[i] matches RunStreamEventView::TurnDone {
                usage,
                stats,
                ..
            } ==> {
                &&& stats.total_input_tokens == reduce_spec(s, e, c, ids).state.usage.input_tokens
                &&& stats.total_output_tokens == reduce_spec(s, e, c, ids).state.usage.output_tokens
                &&& stats.tool_calls_count == reduce_spec(s, e, c, ids).state.tool_calls_count()
                &&& usage == reduce_spec(s, e, c, ids).state.usage
            }),
        forall|i: int|
            0 <= i < reduce_spec(s, e, c, ids).ui_events.len() ==> (
            #[trigger] reduce_spec(s, e, c, ids).ui_events[i] matches UiThreadEventView::Done {
                stats,
                ..
            } ==> {
                &&& stats.total_input_tokens == reduce_spec(s, e, c, ids).state.usage.input_tokens
                &&& stats.total_output_tokens == reduce_spec(s, e, c, ids).state.usage.output_tokens
                &&& stats.tool_calls_count == reduce_spec(s, e, c, ids).state.tool_calls_count()
            }),
{
}

/// While the model streams for the current epoch, answer text is appended to
/// the answer and shown as a message delta, and reasoning is appended to the
/// reasoning and shown as a reasoning delta; neither touches the other.
pub proof fn lemma_deltas_fill_their_buffers(
    s: TurnStateView,
    event_id: Seq<char>,
    delta: Seq<char>,
    c: TurnEngineConfig,
    ids: FreshIdsView,
)
    requires
        !s.seen_event_ids.contains(event_id),
        s.lifecycle == Lifecycle::Active,
        s.model_state == ModelState::Streaming,
    ensures
        ({
            let t = reduce_spec(
                s,
                RuntimeEventView::ModelTextDelta { event_id, epoch: s.epoch, delta },
                c,
                ids,
            );
            &&& t.state.output_buffer == s.output_buffer + delta
            &&& t.state.reasoning_buffer == s.reasoning_buffer
            &&& t.ui_events == seq![UiThreadEventView::MessageDelta { turn_id: s.meta.turn_id, delta }]
            &&& t.run_events.len() == 0
        }),
        ({
            let t = reduce_spec(
                s,
                RuntimeEventView::ModelReasoningDelta { event_id, epoch: s.epoch, delta },
                c,
                ids,
            );
            &&& t.state.reasoning_buffer == s.reasoning_buffer + delta
            &&& t.state.output_buffer == s.output_buffer
            &&& t.ui_events == seq![UiThreadEventView::ReasoningDelta { turn_id: s.meta.turn_id, delta }]
            &&& t.run_events.len() == 0
        }),
{
}

} // verus!
