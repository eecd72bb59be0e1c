//! The events a turn reacts to.
use vstd::prelude::*;

use crate::dup::opt_view;
use crate::model::{
    is_uuid_v4_text, new_id, Id, InputEnvelope, InputEnvelopeView, ToolCall, ToolCallView, ToolResult,
    ToolResultView, Usage,
};

verus! {

/// An event delivered to a turn. Every event carries an id; an id is handled once.
#[derive(Debug, Clone, PartialEq, Eq)]
pub enum RuntimeEvent {
    TurnStarted { event_id: Id, turn_id: Id, input: InputEnvelope },
    ModelTextDelta { event_id: Id, epoch: u64, delta: String },
    ModelReasoningDelta { event_id: Id, epoch: u64, delta: String },
    ModelToolCall { event_id: Id, epoch: u64, call: ToolCall },
    ModelCompleted { event_id: Id, epoch: u64, usage: Option<Usage> },
    ToolDispatched { event_id: Id, epoch: u64, call_id: Id },
    ToolResultOk { event_id: Id, epoch: u64, result: ToolResult },
    ToolResultErr { event_id: Id, epoch: u64, result: ToolResult },
    InputInjected { event_id: Id, input: InputEnvelope },
    RetryTimerFired { event_id: Id, next_epoch: u64 },
    TransientError { event_id: Id, epoch: u64, message: String, retry_after_ms: Option<u64> },
    FatalError { event_id: Id, message: String },
    CancelRequested { event_id: Id, reason: Option<String> },
}

pub enum RuntimeEventView {
    TurnStarted { event_id: Seq<char>, turn_id: Seq<char>, input: InputEnvelopeView },
    ModelTextDelta { event_id: Seq<char>, epoch: u64, delta: Seq<char> },
    ModelReasoningDelta { event_id: Seq<char>, epoch: u64, delta: Seq<char> },
    ModelToolCall { event_id: Seq<char>, epoch: u64, call: ToolCallView },
    ModelCompleted { event_id: Seq<char>, epoch: u64, usage: Option<Usage> },
    ToolDispatched { event_id: Seq<char>, epoch: u64, call_id: Seq<char> },
    ToolResultOk { event_id: Seq<char>, epoch: u64, result: ToolResultView },
    ToolResultErr { event_id: Seq<char>, epoch: u64, result: ToolResultView },
    InputInjected { event_id: Seq<char>, input: InputEnvelopeView },
    RetryTimerFired { event_id: Seq<char>, next_epoch: u64 },
    TransientError {
        event_id: Seq<char>,
        epoch: u64,
        message: Seq<char>,
        retry_after_ms: Option<u64>,
    },
    FatalError { event_id: Seq<char>, message: Seq<char> },
    CancelRequested { event_id: Seq<char>, reason: Option<Seq<char>> },
}

impl View for RuntimeEvent {
    type V = RuntimeEventView;

    open spec fn view(&self) -> RuntimeEventView {
        match self {
            RuntimeEvent::TurnStarted { event_id, turn_id, input } =>
                RuntimeEventView::TurnStarted {
                event_id: event_id@,
                turn_id: turn_id@,
                input: input@,
            },
            RuntimeEvent::ModelTextDelta { event_id, epoch, delta } =>
                RuntimeEventView::ModelTextDelta {
                event_id: event_id@,
                epoch: *epoch,
                delta: delta@,
            },
            RuntimeEvent::ModelReasoningDelta { event_id, epoch, delta } =>
                RuntimeEventView::ModelReasoningDelta {
                event_id: event_id@,
                epoch: *epoch,
                delta: delta@,
            },
            RuntimeEvent::ModelToolCall { event_id, epoch, call } =>
                RuntimeEventView::ModelToolCall { event_id: event_id@, epoch: *epoch, call: call@ },
            RuntimeEvent::ModelCompleted { event_id, epoch, usage } =>
                RuntimeEventView::ModelCompleted {
                event_id: event_id@,
                epoch: *epoch,
                usage: *usage,
            },
            RuntimeEvent::ToolDispatched { event_id, epoch, call_id } =>
                RuntimeEventView::ToolDispatched {
                event_id: event_id@,
                epoch: *epoch,
                call_id: call_id@,
            },
            RuntimeEvent::ToolResultOk { event_id, epoch, result } =>
                RuntimeEventView::ToolResultOk {
                event_id: event_id@,
                epoch: *epoch,
                result: result@,
            },
            RuntimeEvent::ToolResultErr { event_id, epoch, result } =>
                RuntimeEventView::ToolResultErr {
                event_id: event_id@,
                epoch: *epoch,
                result: result@,
            },
            RuntimeEvent::InputInjected { event_id, input } => RuntimeEventView::InputInjected {
                event_id: event_id@,
                input: input@,
            },
            RuntimeEvent::RetryTimerFired { event_id, next_epoch } =>
                RuntimeEventView::RetryTimerFired { event_id: event_id@, next_epoch: *next_epoch },
            RuntimeEvent::TransientError { event_id, epoch, message, retry_after_ms } =>
                RuntimeEventView::TransientError {
                event_id: event_id@,
                epoch: *epoch,
                message: message@,
                retry_after_ms: *retry_after_ms,
            },
            RuntimeEvent::FatalError { event_id, message } => RuntimeEventView::FatalError {
                event_id: event_id@,
                message: message@,
            },
            RuntimeEvent::CancelRequested { event_id, reason } =>
                RuntimeEventView::CancelRequested {
                event_id: event_id@,
                reason: opt_view(*reason),
            },
        }
    }
}

impl RuntimeEventView {
    /// The id of the event.
    pub open spec fn event_id(self) -> Seq<char> {
        match self {
            RuntimeEventView::TurnStarted { event_id, .. } => event_id,
            RuntimeEventView::ModelTextDelta { event_id, .. } => event_id,
            RuntimeEventView::ModelReasoningDelta { event_id, .. } => event_id,
            RuntimeEventView::ModelToolCall { event_id, .. } => event_id,
            RuntimeEventView::ModelCompleted { event_id, .. } => event_id,
            RuntimeEventView::ToolDispatched { event_id, .. } => event_id,
            RuntimeEventView::ToolResultOk { event_id, .. } => event_id,
            RuntimeEventView::ToolResultErr { event_id, .. } => event_id,
            RuntimeEventView::InputInjected { event_id, .. } => event_id,
            RuntimeEventView::RetryTimerFired { event_id, .. } => event_id,
            RuntimeEventView::TransientError { event_id, .. } => event_id,
            RuntimeEventView::FatalError { event_id, .. } => event_id,
            RuntimeEventView::CancelRequested { event_id, .. } => event_id,
        }
    }

    /// The same event under another id.
    pub open spec fn with_event_id(self, id: Seq<char>) -> RuntimeEventView {
        match self {
            RuntimeEventView::TurnStarted { turn_id, input, .. } => RuntimeEventView::TurnStarted {
                event_id: id,
                turn_id,
                input,
            },
            RuntimeEventView::ModelTextDelta { epoch, delta, .. } =>
                RuntimeEventView::ModelTextDelta { event_id: id, epoch, delta },
            RuntimeEventView::ModelReasoningDelta { epoch, delta, .. } =>
                RuntimeEventView::ModelReasoningDelta { event_id: id, epoch, delta },
            RuntimeEventView::ModelToolCall { epoch, call, .. } => RuntimeEventView::ModelToolCall {
                event_id: id,
                epoch,
                call,
            },
            RuntimeEventView::ModelCompleted { epoch, usage, .. } =>
                RuntimeEventView::ModelCompleted { event_id: id, epoch, usage },
            RuntimeEventView::ToolDispatched { epoch, call_id, .. } =>
                RuntimeEventView::ToolDispatched { event_id: id, epoch, call_id },
            RuntimeEventView::ToolResultOk { epoch, result, .. } => RuntimeEventView::ToolResultOk {
                event_id: id,
                epoch,
                result,
            },
            RuntimeEventView::ToolResultErr { epoch, result, .. } =>
                RuntimeEventView::ToolResultErr { event_id: id, epoch, result },
            RuntimeEventView::InputInjected { input, .. } => RuntimeEventView::InputInjected {
                event_id: id,
                input,
            },
            RuntimeEventView::RetryTimerFired { next_epoch, .. } =>
                RuntimeEventView::RetryTimerFired { event_id: id, next_epoch },
            RuntimeEventView::TransientError { epoch, message, retry_after_ms, .. } =>
                RuntimeEventView::TransientError { event_id: id, epoch, message, retry_after_ms },
            RuntimeEventView::FatalError { message, .. } => RuntimeEventView::FatalError {
                event_id: id,
                message,
            },
            RuntimeEventView::CancelRequested { reason, .. } => RuntimeEventView::CancelRequested {
                event_id: id,
                reason,
            },
        }
    }
}

impl RuntimeEvent {
    /// The id of the event.
    pub fn id(&self) -> (r: &str)
        ensures
            r@ == self@.event_id(),
    {
        match self {
            RuntimeEvent::TurnStarted { event_id, .. } => event_id.as_str(),
            RuntimeEvent::ModelTextDelta { event_id, .. } => event_id.as_str(),
            RuntimeEvent::ModelReasoningDelta { event_id, .. } => event_id.as_str(),
            RuntimeEvent::ModelToolCall { event_id, .. } => event_id.as_str(),
            RuntimeEvent::ModelCompleted { event_id, .. } => event_id.as_str(),
            RuntimeEvent::ToolDispatched { event_id, .. } => event_id.as_str(),
            RuntimeEvent::ToolResultOk { event_id, .. } => event_id.as_str(),
            RuntimeEvent::ToolResultErr { event_id, .. } => event_id.as_str(),
            RuntimeEvent::InputInjected { event_id, .. } => event_id.as_str(),
            RuntimeEvent::RetryTimerFired { event_id, .. } => event_id.as_str(),
            RuntimeEvent::TransientError { event_id, .. } => event_id.as_str(),
            RuntimeEvent::FatalError { event_id, .. } => event_id.as_str(),
            RuntimeEvent::CancelRequested { event_id, .. } => event_id.as_str(),
        }
    }

    /// The same event under the id `eid`.
    pub fn with_event_id(self, eid: String) -> (r: Self)
        ensures
            r@ == self@.with_event_id(eid@),
    {
        match self {
            RuntimeEvent::TurnStarted { turn_id, input, .. } => RuntimeEvent::TurnStarted {
                event_id: eid,
                turn_id,
                input,
            },
            RuntimeEvent::ModelTextDelta { epoch, delta, .. } => RuntimeEvent::ModelTextDelta {
                event_id: eid,
                epoch,
                delta,
            },
            RuntimeEvent::ModelReasoningDelta { epoch, delta, .. } =>
                RuntimeEvent::ModelReasoningDelta { event_id: eid, epoch, delta },
            RuntimeEvent::ModelToolCall { epoch, call, .. } => RuntimeEvent::ModelToolCall {
                event_id: eid,
                epoch,
                call,
            },
            RuntimeEvent::ModelCompleted { epoch, usage, .. } => RuntimeEvent::ModelCompleted {
                event_id: eid,
                epoch,
                usage,
            },
            RuntimeEvent::ToolDispatched { epoch, call_id, .. } => RuntimeEvent::ToolDispatched {
                event_id: eid,
                epoch,
                call_id,
            },
            RuntimeEvent::ToolResultOk { epoch, result, .. } => RuntimeEvent::ToolResultOk {
                event_id: eid,
                epoch,
                result,
            },
            RuntimeEvent::ToolResultErr { epoch, result, .. } => RuntimeEvent::ToolResultErr {
                event_id: eid,
                epoch,
                result,
            },
            RuntimeEvent::InputInjected { input, .. } => RuntimeEvent::InputInjected {
                event_id: eid,
                input,
            },
            RuntimeEvent::RetryTimerFired { next_epoch, .. } => RuntimeEvent::RetryTimerFired {
                event_id: eid,
                next_epoch,
            },
            RuntimeEvent::TransientError { epoch, message, retry_after_ms, .. } =>
                RuntimeEvent::TransientError { event_id: eid, epoch, message, retry_after_ms },
            RuntimeEvent::FatalError { message, .. } => RuntimeEvent::FatalError {
                event_id: eid,
                message,
            },
            RuntimeEvent::CancelRequested { reason, .. } => RuntimeEvent::CancelRequested {
                event_id: eid,
                reason,
            },
        }
    }

    /// The same event under a fresh id, the text of a version 4 UUID.
    pub fn with_new_id(self) -> (r: Self)
        ensures
            exists|id: Seq<char>| is_uuid_v4_text(id) && r@ == self@.with_event_id(id),
            is_uuid_v4_text(r@.event_id()),
    {
        let eid = new_id();
        let r = self.with_event_id(eid);
        proof {
            lemma_event_id_round_trip(self@, eid@);
        }
        r
    }
}

/// Re-identifying an event changes its id and nothing else: the id read back
/// is the one written, and writing the event's own id back gives the event again.
pub proof fn lemma_event_id_round_trip(e: RuntimeEventView, id: Seq<char>)
    ensures
        e.with_event_id(id).event_id() == id,
        e.with_event_id(e.event_id()) == e,
        e.with_event_id(id).with_event_id(e.event_id()) == e,
{
}

} // verus!
