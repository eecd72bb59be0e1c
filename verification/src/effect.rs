//! The work a turn asks its executor to do, and how the executor's outcomes
//! come back to the turn as events.
use vstd::prelude::*;
use vstd::string::StringExecFns;

use crate::dup::views;
use crate::error::{agent_message, AgentError};
use crate::model::{
    Id, InputEnvelope, InputEnvelopeView, SessionMeta, ToolCall, ToolCallView, ToolResult, Usage,
};
use crate::runtime_event::{RuntimeEvent, RuntimeEventView};
use crate::transcript::{TranscriptItem, TranscriptItemView};

verus! {

/// Work for the executor.
#[derive(Debug, Clone, PartialEq, Eq)]
pub enum Effect {
    StartModel { epoch: u64, transcript: Vec<TranscriptItem>, inputs: Vec<InputEnvelope> },
    ExecuteTool { epoch: u64, call: ToolCall },
    ScheduleRetry { delay_ms: u64, next_epoch: u64 },
    PersistCheckpoint,
    CancelInflightTools,
}

pub enum EffectView {
    StartModel {
        epoch: u64,
        transcript: Seq<TranscriptItemView>,
        inputs: Seq<InputEnvelopeView>,
    },
    ExecuteTool { epoch: u64, call: ToolCallView },
    ScheduleRetry { delay_ms: u64, next_epoch: u64 },
    PersistCheckpoint,
    CancelInflightTools,
}

impl View for Effect {
    type V = EffectView;

    open spec fn view(&self) -> EffectView {
        match self {
            Effect::StartModel { epoch, transcript, inputs } => EffectView::StartModel {
                epoch: *epoch,
                transcript: views(transcript@),
                inputs: views(inputs@),
            },
            Effect::ExecuteTool { epoch, call } => EffectView::ExecuteTool {
                epoch: *epoch,
                call: call@,
            },
            Effect::ScheduleRetry { delay_ms, next_epoch } => EffectView::ScheduleRetry {
                delay_ms: *delay_ms,
                next_epoch: *next_epoch,
            },
            Effect::PersistCheckpoint => EffectView::PersistCheckpoint,
            Effect::CancelInflightTools => EffectView::CancelInflightTools,
        }
    }
}

/// What a model stream yields.
#[derive(Debug, Clone, PartialEq, Eq)]
pub enum ModelOutputEvent {
    TextDelta { delta: String },
    ReasoningDelta { delta: String },
    ToolCall { call: ToolCall },
    Completed { usage: Option<Usage> },
}

/// A request to the model: the transcript so far and the new inputs.
#[derive(Debug, Clone, PartialEq, Eq)]
pub struct ModelRequest {
    pub epoch: u64,
    pub transcript: Vec<TranscriptItem>,
    pub inputs: Vec<InputEnvelope>,
}

/// A request to run a turn.
#[derive(Debug, Clone, PartialEq, Eq)]
pub struct TurnRequest {
    pub meta: SessionMeta,
    pub initial_input: InputEnvelope,
}

/// The event that reports one item of a model stream of `epoch`, under the id `event_id`.
pub open spec fn model_output_event(
    epoch: u64,
    out: ModelOutputEvent,
    event_id: Seq<char>,
) -> RuntimeEventView {
    match out {
        ModelOutputEvent::TextDelta { delta } => RuntimeEventView::ModelTextDelta {
            event_id,
            epoch,
            delta: delta@,
        },
        ModelOutputEvent::ReasoningDelta { delta } => RuntimeEventView::ModelReasoningDelta {
            event_id,
            epoch,
            delta: delta@,
        },
        ModelOutputEvent::ToolCall { call } => RuntimeEventView::ModelToolCall {
            event_id,
            epoch,
            call: call@,
        },
        ModelOutputEvent::Completed { usage } => RuntimeEventView::ModelCompleted {
            event_id,
            epoch,
            usage,
        },
    }
}

/// Turns one item of a model stream of `epoch` into the event for the turn.
pub fn model_output_to_event(epoch: u64, out: ModelOutputEvent, event_id: Id) -> (r: RuntimeEvent)
    ensures
        r@ == model_output_event(epoch, out, event_id@),
{
    match out {
        ModelOutputEvent::TextDelta { delta } => RuntimeEvent::ModelTextDelta {
            event_id,
            epoch,
            delta,
        },
        ModelOutputEvent::ReasoningDelta { delta } => RuntimeEvent::ModelReasoningDelta {
            event_id,
            epoch,
            delta,
        },
        ModelOutputEvent::ToolCall { call } => RuntimeEvent::ModelToolCall {
            event_id,
            epoch,
            call,
        },
        ModelOutputEvent::Completed { usage } => RuntimeEvent::ModelCompleted {
            event_id,
            epoch,
            usage,
        },
    }
}

/// The event that reports a failed model call of `epoch`: transient errors
/// become `TransientError` (with the service's retry delay), any other error is fatal.
pub open spec fn agent_error_event(epoch: u64, err: AgentError, event_id: Seq<char>) -> RuntimeEventView {
    match err {
        AgentError::Transient(e) => RuntimeEventView::TransientError {
            event_id,
            epoch,
            message: agent_message(err),
            retry_after_ms: match e {
                crate::error::TransientError::Network { retry_after_ms, .. } => retry_after_ms,
                crate::error::TransientError::RateLimit { retry_after_ms, .. } => retry_after_ms,
                crate::error::TransientError::ServiceUnavailable { retry_after_ms, .. } => retry_after_ms,
            },
        },
        _ => RuntimeEventView::FatalError { event_id, message: agent_message(err) },
    }
}

/// Turns the error of a model call of `epoch` into the event for the turn.
pub fn map_agent_error(epoch: u64, err: AgentError, event_id: Id) -> (r: RuntimeEvent)
    ensures
        r@ == agent_error_event(epoch, err, event_id@),
{
    let message = err.to_message();
    match err {
        AgentError::Transient(e) => RuntimeEvent::TransientError {
            event_id,
            epoch,
            message,
            retry_after_ms: e.retry_after_ms(),
        },
        _ => RuntimeEvent::FatalError { event_id, message },
    }
}

/// The event that reports the outcome of a tool call of `epoch`: `Ok` output
/// becomes `ToolResultOk`, an error message becomes `ToolResultErr`.
pub fn tool_outcome_to_event(
    epoch: u64,
    call_id: &str,
    outcome: Result<String, String>,
    event_id: Id,
) -> (r: RuntimeEvent)
    ensures
        match outcome {
            Ok(output) => r@ == (RuntimeEventView::ToolResultOk {
                event_id: event_id@,
                epoch,
                result: crate::model::ToolResultView {
                    call_id: call_id@,
                    output: output@,
                    is_error: false,
                },
            }),
            Err(message) => r@ == (RuntimeEventView::ToolResultErr {
                event_id: event_id@,
                epoch,
                result: crate::model::ToolResultView {
                    call_id: call_id@,
                    output: crate::model::error_object_json(message@),
                    is_error: true,
                },
            }),
        },
{
    match outcome {
        Ok(output) => RuntimeEvent::ToolResultOk {
            event_id,
            epoch,
            result: ToolResult::ok(call_id, output),
        },
        Err(message) => RuntimeEvent::ToolResultErr {
            event_id,
            epoch,
            result: ToolResult::err(call_id, message.as_str()),
        },
    }
}

/// What the end of a model stream reports: nothing once the stream has
/// reported its completion; otherwise a fatal error, since the model stopped
/// without finishing its answer.
pub fn model_stream_end(saw_completed: bool, event_id: Id) -> (r: Option<RuntimeEvent>)
    ensures
        saw_completed ==> r is None,
        !saw_completed ==> (r matches Some(e) && e@ == (RuntimeEventView::FatalError {
            event_id: event_id@,
            message: "model stream ended without completed event"@,
        })),
{
    if saw_completed {
        None
    } else {
        Some(
            RuntimeEvent::FatalError {
                event_id,
                message: String::from_str("model stream ended without completed event"),
            },
        )
    }
}

/// Whether a model stream item reports the end of the answer.
pub fn is_completion(out: &ModelOutputEvent) -> (r: bool)
    ensures
        r == (*out is Completed),
{
    match out {
        ModelOutputEvent::Completed { .. } => true,
        _ => false,
    }
}

/// What one item of a model stream of `epoch` brings: the event for the turn,
/// whether the stream is to be left (at its first error), and whether its
/// completion has been seen so far.
pub struct StreamStep {
    pub event: RuntimeEvent,
    pub stop: bool,
    pub saw_completed: bool,
}

/// Handles one item of a model stream of `epoch`: an output becomes its event
/// and the stream goes on; an error becomes its event and the stream stops.
pub fn model_stream_step(
    epoch: u64,
    item: Result<ModelOutputEvent, AgentError>,
    saw_completed: bool,
    event_id: Id,
) -> (r: StreamStep)
    ensures
        match item {
            Ok(out) => {
                &&& r.event@ == model_output_event(epoch, out, event_id@)
                &&& !r.stop
                &&& r.saw_completed == (saw_completed || out is Completed)
            },
            Err(err) => {
                &&& r.event@ == agent_error_event(epoch, err, event_id@)
                &&& r.stop
                &&& r.saw_completed == saw_completed
            },
        },
{
    match item {
        Ok(out) => {
            let completed = is_completion(&out);
            StreamStep {
                event: model_output_to_event(epoch, out, event_id),
                stop: false,
                saw_completed: saw_completed || completed,
            }
        },
        Err(err) => StreamStep {
            event: map_agent_error(epoch, err, event_id),
            stop: true,
            saw_completed,
        },
    }
}

/// How many tool calls the executor runs at once: the configured number, at least one.
pub fn tool_permits(max_parallel_tools: usize) -> (r: usize)
    ensures
        r == if max_parallel_tools < 1 { 1 } else { max_parallel_tools },
{
    if max_parallel_tools < 1 {
        1
    } else {
        max_parallel_tools
    }
}

/// Each kind of model output becomes the runtime event of the same kind, for
/// the same epoch and under the given id, carrying the output's own content:
/// a reasoning delta is never taken for answer text, nor the reverse.
pub proof fn lemma_output_kind_kept(epoch: u64, out: ModelOutputEvent, event_id: Seq<char>)
    ensures
        model_output_event(epoch, out, event_id).event_id() == event_id,
        out matches ModelOutputEvent::TextDelta { delta } ==> model_output_event(epoch, out, event_id)
            == (RuntimeEventView::ModelTextDelta { event_id, epoch, delta: delta@ }),
        out matches ModelOutputEvent::ReasoningDelta { delta } ==> model_output_event(
            epoch,
            out,
            event_id,
        ) == (RuntimeEventView::ModelReasoningDelta { event_id, epoch, delta: delta@ }),
        out matches ModelOutputEvent::ToolCall { call } ==> model_output_event(epoch, out, event_id)
            == (RuntimeEventView::ModelToolCall { event_id, epoch, call: call@ }),
        out matches ModelOutputEvent::Completed { usage } ==> model_output_event(epoch, out, event_id)
            == (RuntimeEventView::ModelCompleted { event_id, epoch, usage }),
{
}

/// A transient error of a model call becomes a transient-error event of the
/// call's epoch that keeps the delay the service asked for; every other error
/// fails the turn.
pub proof fn lemma_error_kind_kept(epoch: u64, err: AgentError, event_id: Seq<char>)
    ensures
        agent_error_event(epoch, err, event_id).event_id() == event_id,
        err matches AgentError::Transient(e) ==> agent_error_event(epoch, err, event_id) matches RuntimeEventView::TransientError {
            epoch: ep,
            retry_after_ms,
            ..
        } && ep == epoch && retry_after_ms == match e {
            crate::error::TransientError::Network { retry_after_ms: d, .. } => d,
            crate::error::TransientError::RateLimit { retry_after_ms: d, .. } => d,
            crate::error::TransientError::ServiceUnavailable { retry_after_ms: d, .. } => d,
        },
        !(err is Transient) ==> agent_error_event(epoch, err, event_id) is FatalError,
{
}

} // verus!
