//! Builders of states and events, and a runner of event sequences, for
//! exercising the reducer.
use vstd::prelude::*;
use vstd::string::StringExecFns;

use crate::dup::{views, Duplicate};
use crate::effect::Effect;
use crate::events::{RunStreamEvent, UiThreadEvent};
use crate::model::{
    is_uuid_v4_text, json_string, json_string_literal, InputEnvelope, InputEnvelopeView, InputPartView,
    InputSource, SessionMeta, SessionMetaView, ToolCall, ToolCallView, ToolResult, Usage,
};
use crate::reducer::reduce;
use crate::runtime_event::{RuntimeEvent, RuntimeEventView};
use crate::state::{call_views, Lifecycle, ModelState, TurnEngineConfig, TurnState, TurnStateView};
use crate::text::{contains, decimal, str_contains, write_decimal, write_decimal_pad3, zero_pad};
use crate::transition::{Transition, TransitionView};
use crate::transcript::TranscriptItem;

verus! {

/// Default session id of fixtures.
pub const TEST_SESSION_ID: &'static str = "test_session";

/// Default turn id of fixtures.
pub const TEST_TURN_ID: &'static str = "test_turn";

/// Default tool name of fixtures.
pub const TEST_TOOL_NAME: &'static str = "test_tool";

/// Prefix of generated call ids.
pub const TEST_CALL_ID_PREFIX: &'static str = "call_";

/// Prefix of generated event ids.
pub const TEST_EVENT_ID_PREFIX: &'static str = "evt_";

pub fn session_meta(session_id: &str, turn_id: &str) -> (r: SessionMeta)
    ensures
        r@ == (SessionMetaView { session_id: session_id@, turn_id: turn_id@ }),
{
    SessionMeta::new(session_id, turn_id)
}

/// A tool call with the given id, name and JSON arguments.
pub fn tool_call(call_id: &str, tool_name: &str, arguments: &str) -> (r: ToolCall)
    ensures
        r@ == (ToolCallView {
            call_id: call_id@,
            tool_name: tool_name@,
            arguments: arguments@,
        }),
{
    ToolCall {
        call_id: String::from_str(call_id),
        tool_name: String::from_str(tool_name),
        arguments: String::from_str(arguments),
    }
}

/// A user input of one text part.
pub fn user_input(text: &str) -> (r: InputEnvelope)
    ensures
        r@.source == InputSource::User,
        r@.parts == seq![InputPartView::Text { text: text@ }],
        is_uuid_v4_text(r@.id),
{
    InputEnvelope::user_text(text)
}

/// The JSON text of `{"call_id": call_id, "result": result}`, `result` being JSON text.
pub open spec fn tool_input_json(call_id: Seq<char>, result: Seq<char>) -> Seq<char> {
    "{\"call_id\":"@ + json_string_literal(call_id) + ",\"result\":"@ + result + "}"@
}

/// A tool input whose JSON part holds the call id and the result.
pub fn tool_input(call_id: &str, result: &str) -> (r: InputEnvelope)
    ensures
        r@.source == InputSource::Tool,
        r@.parts == seq![InputPartView::Json { value: tool_input_json(call_id@, result@) }],
{
    let quoted = json_string(call_id);
    tool_input_quoted(quoted.as_str(), result)
}

/// A tool input whose JSON part holds the call id, already written as a JSON
/// string literal, and the result.
pub fn tool_input_quoted(quoted_call_id: &str, result: &str) -> (r: InputEnvelope)
    ensures
        r@.source == InputSource::Tool,
        r@.parts == seq![
            InputPartView::Json {
                value: "{\"call_id\":"@ + quoted_call_id@ + ",\"result\":"@ + result@ + "}"@,
            },
        ],
{
    let mut text = String::from_str("{\"call_id\":");
    text.append(quoted_call_id);
    text.append(",\"result\":");
    text.append(result);
    text.append("}");
    InputEnvelope::tool_json(text)
}

pub fn test_config() -> (r: TurnEngineConfig)
    ensures
        r == (TurnEngineConfig {
            max_parallel_tools: 4,
            retry_policy: crate::state::RetryPolicy { max_retries: 3, base_delay_ms: 200 },
        }),
{
    TurnEngineConfig::default()
}

/// `"call_"` followed by `n` padded with zeros to three digits.
pub fn make_call_id(n: u32) -> (r: String)
    ensures
        r@ == "call_"@ + zero_pad(decimal(n as nat), 3),
{
    let mut r = String::from_str("call_");
    write_decimal_pad3(&mut r, n as u64);
    r
}

/// `"evt_"` followed by `n` padded with zeros to three digits.
pub fn make_event_id(n: u32) -> (r: String)
    ensures
        r@ == "evt_"@ + zero_pad(decimal(n as nat), 3),
{
    let mut r = String::from_str("evt_");
    write_decimal_pad3(&mut r, n as u64);
    r
}

/// `m` with each `(call id, call)` of `pairs` inserted, in order.
pub open spec fn inserted_calls(
    m: Map<Seq<char>, ToolCallView>,
    pairs: Seq<(String, ToolCall)>,
) -> Map<Seq<char>, ToolCallView>
    decreases pairs.len(),
{
    if pairs.len() == 0 {
        m
    } else {
        inserted_calls(m, pairs.drop_last()).insert(pairs.last().0@, pairs.last().1@)
    }
}

/// `s` with each id of `ids` added.
pub open spec fn inserted_ids(s: Set<Seq<char>>, ids: Seq<String>) -> Set<Seq<char>>
    decreases ids.len(),
{
    if ids.len() == 0 {
        s
    } else {
        inserted_ids(s, ids.drop_last()).insert(ids.last()@)
    }
}

/// Builds a turn state field by field, starting from the state a turn starts in.
pub struct StateBuilder {
    state: TurnState,
}

impl View for StateBuilder {
    type V = TurnStateView;

    closed spec fn view(&self) -> TurnStateView {
        self.state@
    }
}

impl StateBuilder {
    pub fn new(session_id: &str, turn_id: &str) -> (r: Self)
        ensures
            r@ == crate::state::initial_state(
                SessionMetaView { session_id: session_id@, turn_id: turn_id@ },
            ),
    {
        StateBuilder { state: TurnState::new(SessionMeta::new(session_id, turn_id)) }
    }

    pub fn from_state(state: TurnState) -> (r: Self)
        ensures
            r@ == state@,
    {
        StateBuilder { state }
    }

    pub fn with_lifecycle(self, lifecycle: Lifecycle) -> (r: Self)
        ensures
            r@ == (TurnStateView { lifecycle, ..self@ }),
    {
        let mut b = self;
        b.state.lifecycle = lifecycle;
        b
    }

    pub fn with_model_state(self, model_state: ModelState) -> (r: Self)
        ensures
            r@ == (TurnStateView { model_state, ..self@ }),
    {
        let mut b = self;
        b.state.model_state = model_state;
        b
    }

    pub fn with_epoch(self, epoch: u64) -> (r: Self)
        ensures
            r@ == (TurnStateView { epoch, ..self@ }),
    {
        let mut b = self;
        b.state.epoch = epoch;
        b
    }

    pub fn with_pending_input(self, input: InputEnvelope) -> (r: Self)
        ensures
            r@ == (TurnStateView { pending_inputs: self@.pending_inputs.push(input@), ..self@ }),
    {
        let mut b = self;
        b.state.enqueue_input(input);
        b
    }

    pub fn with_pending_inputs(self, inputs: Vec<InputEnvelope>) -> (r: Self)
        ensures
            r@ == (TurnStateView { pending_inputs: self@.pending_inputs + views(inputs@), ..self@ }),
    {
        let mut b = self;
        let mut i: usize = 0;
        while i < inputs.len()
            invariant
                i <= inputs.len(),
                b@ == (TurnStateView {
                    pending_inputs: self@.pending_inputs + views(inputs@.take(i as int)),
                    ..self@
                }),
            decreases inputs.len() - i,
        {
            let input = inputs[i].duplicate();
            b.state.enqueue_input(input);
            assert(views(inputs@.take(i + 1)) =~= views(inputs@.take(i as int)).push(inputs@[i as int]@));
            assert(self@.pending_inputs + views(inputs@.take(i + 1)) =~= (self@.pending_inputs
                + views(inputs@.take(i as int))).push(inputs@[i as int]@));
            i = i + 1;
        }
        assert(inputs@.take(i as int) =~= inputs@);
        b
    }

    /// Puts `tool` in flight under `call_id`.
    pub fn with_inflight_tool(self, call_id: &str, tool: ToolCall) -> (r: Self)
        ensures
            r@ == (TurnStateView {
                inflight_tools: self@.inflight_tools.insert(call_id@, tool@),
                ..self@
            }),
    {
        let mut b = self;
        proof {
            assert(call_views(b.state.inflight_tools@.insert(call_id@, tool)) =~= call_views(
                b.state.inflight_tools@,
            ).insert(call_id@, tool@));
        }
        b.state.inflight_tools.insert(String::from_str(call_id), tool);
        b
    }

    pub fn with_output_buffer(self, buffer: &str) -> (r: Self)
        ensures
            r@ == (TurnStateView { output_buffer: buffer@, ..self@ }),
    {
        let mut b = self;
        b.state.output_buffer = String::from_str(buffer);
        b
    }

    pub fn with_reasoning_buffer(self, buffer: &str) -> (r: Self)
        ensures
            r@ == (TurnStateView { reasoning_buffer: buffer@, ..self@ }),
    {
        let mut b = self;
        b.state.reasoning_buffer = String::from_str(buffer);
        b
    }

    pub fn with_usage(self, usage: Usage) -> (r: Self)
        ensures
            r@ == (TurnStateView { usage, ..self@ }),
    {
        let mut b = self;
        b.state.usage = usage;
        b
    }

    pub fn with_done_emitted(self, done_emitted: bool) -> (r: Self)
        ensures
            r@ == (TurnStateView { done_emitted, ..self@ }),
    {
        let mut b = self;
        b.state.done_emitted = done_emitted;
        b
    }

    pub fn with_retry_attempt(self, attempt: u32) -> (r: Self)
        ensures
            r@ == (TurnStateView { retry_attempt: attempt, ..self@ }),
    {
        let mut b = self;
        b.state.retry_attempt = attempt;
        b
    }

    /// Marks `event_id` as handled.
    pub fn with_seen_event(self, event_id: &str) -> (r: Self)
        ensures
            r@ == (TurnStateView {
                seen_event_ids: self@.seen_event_ids.insert(event_id@),
                ..self@
            }),
    {
        let mut b = self;
        b.state.seen_event_ids.insert(String::from_str(event_id));
        b
    }

    pub fn with_transcript_item(self, item: TranscriptItem) -> (r: Self)
        ensures
            r@ == (TurnStateView { transcript: self@.transcript.push(item@), ..self@ }),
    {
        let mut b = self;
        let ghost t0 = b.state.transcript@;
        b.state.transcript.push(item);
        assert(views(b.state.transcript@) =~= views(t0).push(item@));
        b
    }

    /// Puts each `(call id, call)` in flight, in order; a later pair with the
    /// same call id replaces an earlier one.
    pub fn with_inflight_tools(self, tools: Vec<(String, ToolCall)>) -> (r: Self)
        ensures
            r@ == (TurnStateView {
                inflight_tools: inserted_calls(self@.inflight_tools, tools@),
                ..self@
            }),
    {
        let mut b = self;
        let mut i: usize = 0;
        while i < tools.len()
            invariant
                i <= tools.len(),
                b@ == (TurnStateView {
                    inflight_tools: inserted_calls(self@.inflight_tools, tools@.take(i as int)),
                    ..self@
                }),
            decreases tools.len() - i,
        {
            let (id, call) = &tools[i];
            assert(tools@.take(i + 1).drop_last() =~= tools@.take(i as int));
            b = b.with_inflight_tool(id.as_str(), call.duplicate());
            i = i + 1;
        }
        assert(tools@.take(i as int) =~= tools@);
        b
    }

    /// Marks each event id as handled.
    pub fn with_seen_events(self, event_ids: Vec<String>) -> (r: Self)
        ensures
            r@ == (TurnStateView {
                seen_event_ids: inserted_ids(self@.seen_event_ids, event_ids@),
                ..self@
            }),
    {
        let mut b = self;
        let mut i: usize = 0;
        while i < event_ids.len()
            invariant
                i <= event_ids.len(),
                b@ == (TurnStateView {
                    seen_event_ids: inserted_ids(self@.seen_event_ids, event_ids@.take(i as int)),
                    ..self@
                }),
            decreases event_ids.len() - i,
        {
            assert(event_ids@.take(i + 1).drop_last() =~= event_ids@.take(i as int));
            b = b.with_seen_event(event_ids[i].as_str());
            i = i + 1;
        }
        assert(event_ids@.take(i as int) =~= event_ids@);
        b
    }

    /// Appends the items to the transcript, in order.
    pub fn with_transcript(self, items: Vec<TranscriptItem>) -> (r: Self)
        ensures
            r@ == (TurnStateView { transcript: self@.transcript + views(items@), ..self@ }),
    {
        let mut b = self;
        let mut i: usize = 0;
        while i < items.len()
            invariant
                i <= items.len(),
                b@ == (TurnStateView {
                    transcript: self@.transcript + views(items@.take(i as int)),
                    ..self@
                }),
            decreases items.len() - i,
        {
            let ghost before = b@;
            b = b.with_transcript_item(items[i].duplicate());
            assert(views(items@.take(i + 1)) =~= views(items@.take(i as int)).push(items@[i as int]@));
            assert(b@.transcript =~= self@.transcript + views(items@.take(i + 1)));
            i = i + 1;
        }
        assert(items@.take(i as int) =~= items@);
        b
    }

    pub fn with_last_request_inputs(self, inputs: Vec<InputEnvelope>) -> (r: Self)
        ensures
            r@ == (TurnStateView { last_request_inputs: views(inputs@), ..self@ }),
    {
        let mut b = self;
        b.state.last_request_inputs = inputs;
        b
    }

    pub fn build(self) -> (r: TurnState)
        ensures
            r@ == self@,
    {
        self.state
    }
}

/// Builds a runtime event. The event gets the id set with `with_event_id`, or
/// a fresh one.
pub struct EventBuilder {
    event: RuntimeEvent,
    event_id: Option<String>,
}

impl EventBuilder {
    /// The event to build, before its id is set.
    pub closed spec fn spec_event(&self) -> RuntimeEventView {
        self.event@
    }

    /// The id set for the event, if any.
    pub closed spec fn spec_event_id(&self) -> Option<Seq<char>> {
        crate::dup::opt_view(self.event_id)
    }

    fn of(event: RuntimeEvent) -> (r: Self)
        ensures
            r.spec_event() == event@,
            r.spec_event_id() is None,
    {
        EventBuilder { event, event_id: None }
    }

    pub fn turn_started(turn_id: &str, input: InputEnvelope) -> (r: Self)
        ensures
            r.spec_event() == (RuntimeEventView::TurnStarted {
                event_id: seq![],
                turn_id: turn_id@,
                input: input@,
            }),
            r.spec_event_id() is None,
    {
        Self::of(
            RuntimeEvent::TurnStarted { event_id: String::new(), turn_id: String::from_str(turn_id), input },
        )
    }

    /// A text delta of epoch 0.
    pub fn model_text_delta(text: &str) -> (r: Self)
        ensures
            r.spec_event() == (RuntimeEventView::ModelTextDelta {
                event_id: seq![],
                epoch: 0,
                delta: text@,
            }),
            r.spec_event_id() is None,
    {
        Self::of(
            RuntimeEvent::ModelTextDelta { event_id: String::new(), epoch: 0, delta: String::from_str(text) },
        )
    }

    /// A reasoning delta of epoch 0.
    pub fn model_reasoning_delta(text: &str) -> (r: Self)
        ensures
            r.spec_event() == (RuntimeEventView::ModelReasoningDelta {
                event_id: seq![],
                epoch: 0,
                delta: text@,
            }),
            r.spec_event_id() is None,
    {
        Self::of(
            RuntimeEvent::ModelReasoningDelta {
                event_id: String::new(),
                epoch: 0,
                delta: String::from_str(text),
            },
        )
    }

    /// A tool call of epoch 0.
    pub fn model_tool_call(call_id: &str, tool_name: &str, arguments: &str) -> (r: Self)
        ensures
            r.spec_event() == (RuntimeEventView::ModelToolCall {
                event_id: seq![],
                epoch: 0,
                call: ToolCallView {
                    call_id: call_id@,
                    tool_name: tool_name@,
                    arguments: arguments@,
                },
            }),
            r.spec_event_id() is None,
    {
        Self::of(
            RuntimeEvent::ModelToolCall {
                event_id: String::new(),
                epoch: 0,
                call: tool_call(call_id, tool_name, arguments),
            },
        )
    }

    /// A dispatch notice of epoch 0.
    pub fn tool_dispatched(call_id: &str) -> (r: Self)
        ensures
            r.spec_event() == (RuntimeEventView::ToolDispatched {
                event_id: seq![],
                epoch: 0,
                call_id: call_id@,
            }),
            r.spec_event_id() is None,
    {
        Self::of(
            RuntimeEvent::ToolDispatched {
                event_id: String::new(),
                epoch: 0,
                call_id: String::from_str(call_id),
            },
        )
    }

    /// A successful tool result of epoch 0 with the given JSON output.
    pub fn tool_result_ok(call_id: &str, output: &str) -> (r: Self)
        ensures
            r.spec_event() == (RuntimeEventView::ToolResultOk {
                event_id: seq![],
                epoch: 0,
                result: crate::model::ToolResultView {
                    call_id: call_id@,
                    output: output@,
                    is_error: false,
                },
            }),
            r.spec_event_id() is None,
    {
        Self::of(
            RuntimeEvent::ToolResultOk {
                event_id: String::new(),
                epoch: 0,
                result: ToolResult::ok(call_id, String::from_str(output)),
            },
        )
    }

    /// A failed tool result of epoch 0 with the given message.
    pub fn tool_result_err(call_id: &str, message: &str) -> (r: Self)
        ensures
            r.spec_event() == (RuntimeEventView::ToolResultErr {
                event_id: seq![],
                epoch: 0,
                result: crate::model::ToolResultView {
                    call_id: call_id@,
                    output: crate::model::error_object_json(message@),
                    is_error: true,
                },
            }),
            r.spec_event_id() is None,
    {
        Self::of(
            RuntimeEvent::ToolResultErr {
                event_id: String::new(),
                epoch: 0,
                result: ToolResult::err(call_id, message),
            },
        )
    }

    pub fn input_injected(input: InputEnvelope) -> (r: Self)
        ensures
            r.spec_event() == (RuntimeEventView::InputInjected { event_id: seq![], input: input@ }),
            r.spec_event_id() is None,
    {
        Self::of(RuntimeEvent::InputInjected { event_id: String::new(), input })
    }

    /// A model completion of epoch 0 without usage.
    pub fn model_completed() -> (r: Self)
        ensures
            r.spec_event() == (RuntimeEventView::ModelCompleted {
                event_id: seq![],
                epoch: 0,
                usage: None,
            }),
            r.spec_event_id() is None,
    {
        Self::of(RuntimeEvent::ModelCompleted { event_id: String::new(), epoch: 0, usage: None })
    }

    pub fn retry_timer_fired(next_epoch: u64) -> (r: Self)
        ensures
            r.spec_event() == (RuntimeEventView::RetryTimerFired { event_id: seq![], next_epoch }),
            r.spec_event_id() is None,
    {
        Self::of(RuntimeEvent::RetryTimerFired { event_id: String::new(), next_epoch })
    }

    /// A transient error of epoch 0 without a retry delay.
    pub fn transient_error(message: &str) -> (r: Self)
        ensures
            r.spec_event() == (RuntimeEventView::TransientError {
                event_id: seq![],
                epoch: 0,
                message: message@,
                retry_after_ms: None,
            }),
            r.spec_event_id() is None,
    {
        Self::of(
            RuntimeEvent::TransientError {
                event_id: String::new(),
                epoch: 0,
                message: String::from_str(message),
                retry_after_ms: None,
            },
        )
    }

    pub fn fatal_error(message: &str) -> (r: Self)
        ensures
            r.spec_event() == (RuntimeEventView::FatalError {
                event_id: seq![],
                message: message@,
            }),
            r.spec_event_id() is None,
    {
        Self::of(RuntimeEvent::FatalError { event_id: String::new(), message: String::from_str(message) })
    }

    /// A cancellation without a reason.
    pub fn cancel_requested() -> (r: Self)
        ensures
            r.spec_event() == (RuntimeEventView::CancelRequested { event_id: seq![], reason: None }),
            r.spec_event_id() is None,
    {
        Self::of(RuntimeEvent::CancelRequested { event_id: String::new(), reason: None })
    }

    /// Sets the id the event will carry.
    pub fn with_event_id(self, event_id: &str) -> (r: Self)
        ensures
            r.spec_event() == self.spec_event(),
            r.spec_event_id() == Some(event_id@),
    {
        EventBuilder { event: self.event, event_id: Some(String::from_str(event_id)) }
    }

    /// Sets the epoch of an event that has one; other events are unchanged.
    pub fn with_epoch(self, epoch: u64) -> (r: Self)
        ensures
            r.spec_event_id() == self.spec_event_id(),
            r.spec_event() == match self.spec_event() {
                RuntimeEventView::ModelTextDelta { event_id, delta, .. } =>
                    RuntimeEventView::ModelTextDelta { event_id, epoch, delta },
                RuntimeEventView::ModelReasoningDelta { event_id, delta, .. } =>
                    RuntimeEventView::ModelReasoningDelta { event_id, epoch, delta },
                RuntimeEventView::ModelToolCall { event_id, call, .. } =>
                    RuntimeEventView::ModelToolCall { event_id, epoch, call },
                RuntimeEventView::ToolResultOk { event_id, result, .. } =>
                    RuntimeEventView::ToolResultOk { event_id, epoch, result },
                RuntimeEventView::ToolResultErr { event_id, result, .. } =>
                    RuntimeEventView::ToolResultErr { event_id, epoch, result },
                RuntimeEventView::ModelCompleted { event_id, usage, .. } =>
                    RuntimeEventView::ModelCompleted { event_id, epoch, usage },
                RuntimeEventView::ToolDispatched { event_id, call_id, .. } =>
                    RuntimeEventView::ToolDispatched { event_id, epoch, call_id },
                RuntimeEventView::TransientError { event_id, message, retry_after_ms, .. } =>
                    RuntimeEventView::TransientError { event_id, epoch, message, retry_after_ms },
                other => other,
            },
    {
        let event = match self.event {
            RuntimeEvent::ModelTextDelta { event_id, delta, .. } => RuntimeEvent::ModelTextDelta {
                event_id,
                epoch,
                delta,
            },
            RuntimeEvent::ModelReasoningDelta { event_id, delta, .. } =>
                RuntimeEvent::ModelReasoningDelta { event_id, epoch, delta },
            RuntimeEvent::ModelToolCall { event_id, call, .. } => RuntimeEvent::ModelToolCall {
                event_id,
                epoch,
                call,
            },
            RuntimeEvent::ToolResultOk { event_id, result, .. } => RuntimeEvent::ToolResultOk {
                event_id,
                epoch,
                result,
            },
            RuntimeEvent::ToolResultErr { event_id, result, .. } => RuntimeEvent::ToolResultErr {
                event_id,
                epoch,
                result,
            },
            RuntimeEvent::ModelCompleted { event_id, usage, .. } => RuntimeEvent::ModelCompleted {
                event_id,
                epoch,
                usage,
            },
            RuntimeEvent::ToolDispatched { event_id, call_id, .. } => RuntimeEvent::ToolDispatched {
                event_id,
                epoch,
                call_id,
            },
            RuntimeEvent::TransientError { event_id, message, retry_after_ms, .. } =>
                RuntimeEvent::TransientError { event_id, epoch, message, retry_after_ms },
            other => other,
        };
        EventBuilder { event, event_id: self.event_id }
    }

    /// Sets the usage of a model completion; other events are unchanged.
    pub fn with_usage(self, usage: Usage) -> (r: Self)
        ensures
            r.spec_event_id() == self.spec_event_id(),
            r.spec_event() == match self.spec_event() {
                RuntimeEventView::ModelCompleted { event_id, epoch, .. } =>
                    RuntimeEventView::ModelCompleted { event_id, epoch, usage: Some(usage) },
                other => other,
            },
    {
        let event = match self.event {
            RuntimeEvent::ModelCompleted { event_id, epoch, .. } => RuntimeEvent::ModelCompleted {
                event_id,
                epoch,
                usage: Some(usage),
            },
            other => other,
        };
        EventBuilder { event, event_id: self.event_id }
    }

    /// Sets the retry delay of a transient error; other events are unchanged.
    pub fn with_retry_after_ms(self, ms: u64) -> (r: Self)
        ensures
            r.spec_event_id() == self.spec_event_id(),
            r.spec_event() == match self.spec_event() {
                RuntimeEventView::TransientError { event_id, epoch, message, .. } =>
                    RuntimeEventView::TransientError {
                    event_id,
                    epoch,
                    message,
                    retry_after_ms: Some(ms),
                },
                other => other,
            },
    {
        let event = match self.event {
            RuntimeEvent::TransientError { event_id, epoch, message, .. } =>
                RuntimeEvent::TransientError { event_id, epoch, message, retry_after_ms: Some(ms) },
            other => other,
        };
        EventBuilder { event, event_id: self.event_id }
    }

    /// The event, under the id that was set, or else `evt_` followed by `n`.
    pub fn build_numbered(self, n: u32) -> (r: RuntimeEvent)
        ensures
            self.spec_event_id() matches Some(id) ==> r@ == self.spec_event().with_event_id(id),
            self.spec_event_id() is None ==> r@ == self.spec_event().with_event_id(
                "evt_"@ + decimal(n as nat),
            ),
    {
        match self.event_id {
            Some(id) => self.event.with_event_id(id),
            None => {
                let mut id = String::from_str("evt_");
                write_decimal(&mut id, n as u64);
                self.event.with_event_id(id)
            },
        }
    }

    /// The event, under the id that was set, or else `evt_` followed by the
    /// counter's next number. The counter counts on by one either way, so
    /// events built one after another from one counter are numbered apart.
    pub fn build(self, counter: &mut EventCounter) -> (r: RuntimeEvent)
        ensures
            final(counter).spec_count() == next_count(old(counter).spec_count()),
            self.spec_event_id() matches Some(id) ==> r@ == self.spec_event().with_event_id(id),
            self.spec_event_id() is None ==> r@ == self.spec_event().with_event_id(
                "evt_"@ + decimal(old(counter).spec_count() as nat),
            ),
    {
        let n = counter.next();
        self.build_numbered(n)
    }
}

/// The count after `count`, wrapping to 0 after `u32::MAX`.
pub open spec fn next_count(count: u32) -> u32 {
    if count == u32::MAX {
        0
    } else {
        (count + 1) as u32
    }
}

/// The numbers of built events, counted up from 0.
pub struct EventCounter {
    count: u32,
}

impl EventCounter {
    /// The number the next event gets.
    pub closed spec fn spec_count(&self) -> u32 {
        self.count
    }

    /// A counter at 0.
    pub fn new() -> (r: Self)
        ensures
            r.spec_count() == 0,
    {
        EventCounter { count: 0 }
    }

    /// Takes the current number and counts on by one, wrapping after `u32::MAX`.
    pub fn next(&mut self) -> (r: u32)
        ensures
            r == old(self).spec_count(),
            final(self).spec_count() == next_count(old(self).spec_count()),
    {
        let r = self.count;
        self.count = self.count.wrapping_add(1);
        r
    }
}

/// Two events built one after the other from one counter, with no id set on
/// either, get different ids: the counter never gives one number twice in a row.
pub proof fn lemma_consecutive_build_ids_distinct(count: u32)
    ensures
        "evt_"@ + decimal(count as nat) != "evt_"@ + decimal(next_count(count) as nat),
{
    lemma_numbered_ids_distinct(count, next_count(count));
}

/// Events numbered differently get different ids.
pub proof fn lemma_numbered_ids_distinct(a: u32, b: u32)
    requires
        a != b,
    ensures
        "evt_"@ + decimal(a as nat) != "evt_"@ + decimal(b as nat),
{
    crate::text::lemma_zero_pad_decimal_injective(a as nat, b as nat, 0);
    let e = "evt_"@;
    let da = decimal(a as nat);
    let db = decimal(b as nat);
    assert(zero_pad(da, 0) == da);
    assert(zero_pad(db, 0) == db);
    if e + da == e + db {
        assert((e + da).subrange(e.len() as int, (e + da).len() as int) =~= da);
        assert((e + db).subrange(e.len() as int, (e + db).len() as int) =~= db);
    }
}

/// Runs a sequence of events through the reducer and collects what each step produced.
pub struct ScenarioRunner {
    state: TurnState,
    config: TurnEngineConfig,
    run_events: Vec<RunStreamEvent>,
    ui_events: Vec<UiThreadEvent>,
    effects: Vec<Effect>,
}

pub struct ScenarioView {
    pub state: TurnStateView,
    pub config: TurnEngineConfig,
    pub run_events: Seq<crate::events::RunStreamEventView>,
    pub ui_events: Seq<crate::events::UiThreadEventView>,
    pub effects: Seq<crate::effect::EffectView>,
}

impl View for ScenarioRunner {
    type V = ScenarioView;

    closed spec fn view(&self) -> ScenarioView {
        ScenarioView {
            state: self.state@,
            config: self.config,
            run_events: views(self.run_events@),
            ui_events: views(self.ui_events@),
            effects: views(self.effects@),
        }
    }
}

impl ScenarioRunner {
    pub fn new(state: TurnState, config: &TurnEngineConfig) -> (r: Self)
        ensures
            r@ == (ScenarioView {
                state: state@,
                config: *config,
                run_events: seq![],
                ui_events: seq![],
                effects: seq![],
            }),
    {
        let r = ScenarioRunner {
            state,
            config: *config,
            run_events: Vec::new(),
            ui_events: Vec::new(),
            effects: Vec::new(),
        };
        assert(views(r.run_events@) =~= seq![]);
        assert(views(r.ui_events@) =~= seq![]);
        assert(views(r.effects@) =~= seq![]);
        r
    }

    pub fn from_builder(builder: StateBuilder, config: &TurnEngineConfig) -> (r: Self)
        ensures
            r@ == (ScenarioView {
                state: builder@,
                config: *config,
                run_events: seq![],
                ui_events: seq![],
                effects: seq![],
            }),
    {
        Self::new(builder.build(), config)
    }

    /// Handles `event`, keeping the next state and appending what the step produced.
    pub fn push(self, event: RuntimeEvent) -> (r: Self)
        ensures
            exists|ids: crate::turn_spec::FreshIdsView|
                {
                    let t = #[trigger] crate::turn_spec::reduce_spec(
                        self@.state,
                        event@,
                        self@.config,
                        ids,
                    );
                    r@ == ScenarioView {
                        state: t.state,
                        config: self@.config,
                        run_events: self@.run_events + t.run_events,
                        ui_events: self@.ui_events + t.ui_events,
                        effects: self@.effects + t.effects,
                    }
                },
    {
        let ghost s0 = self@;
        let ghost e0 = event@;
        let mut runner = self;
        let mut tr = reduce(runner.state, event, &runner.config);
        let ghost w = choose|ids: crate::turn_spec::FreshIdsView|
            tr@ == crate::turn_spec::reduce_spec(s0.state, e0, s0.config, ids);
        let ghost rv = runner.run_events@;
        let ghost uv = runner.ui_events@;
        let ghost ev = runner.effects@;
        let ghost t = tr@;
        runner.run_events.append(&mut tr.run_events);
        runner.ui_events.append(&mut tr.ui_events);
        runner.effects.append(&mut tr.effects);
        runner.state = tr.state;
        assert(views(runner.run_events@) =~= views(rv) + t.run_events);
        assert(views(runner.ui_events@) =~= views(uv) + t.ui_events);
        assert(views(runner.effects@) =~= views(ev) + t.effects);
        assert(t == crate::turn_spec::reduce_spec(s0.state, e0, s0.config, w));
        runner
    }

    /// Handles `event` as `push` does, then hands the new state to `check`.
    pub fn push_expect<F: Fn(&TurnState)>(self, event: RuntimeEvent, check: F) -> (r: Self)
        requires
            forall|st: &TurnState| check.requires((st,)),
        ensures
            exists|ids: crate::turn_spec::FreshIdsView|
                {
                    let t = #[trigger] crate::turn_spec::reduce_spec(
                        self@.state,
                        event@,
                        self@.config,
                        ids,
                    );
                    r@ == ScenarioView {
                        state: t.state,
                        config: self@.config,
                        run_events: self@.run_events + t.run_events,
                        ui_events: self@.ui_events + t.ui_events,
                        effects: self@.effects + t.effects,
                    }
                },
    {
        let r = self.push(event);
        check(&r.state);
        r
    }

    /// Ends the scenario; the runner is returned as it is.
    pub fn run(self) -> (r: Self)
        ensures
            r@ == self@,
    {
        self
    }

    pub fn state(&self) -> (r: &TurnState)
        ensures
            r@ == self@.state,
    {
        &self.state
    }

    pub fn run_events(&self) -> (r: &Vec<RunStreamEvent>)
        ensures
            views(r@) == self@.run_events,
    {
        &self.run_events
    }

    pub fn ui_events(&self) -> (r: &Vec<UiThreadEvent>)
        ensures
            views(r@) == self@.ui_events,
    {
        &self.ui_events
    }

    pub fn effects(&self) -> (r: &Vec<Effect>)
        ensures
            views(r@) == self@.effects,
    {
        &self.effects
    }

    pub fn into_state(self) -> (r: TurnState)
        ensures
            r@ == self@.state,
    {
        self.state
    }
}

/// Whether some run event announces the end of the turn.
pub open spec fn has_turn_done(events: Seq<crate::events::RunStreamEventView>) -> bool {
    exists|i: int| 0 <= i < events.len() && #[trigger] events[i] is TurnDone
}

/// Whether some effect starts the model for `epoch`.
pub open spec fn starts_model(effects: Seq<crate::effect::EffectView>, epoch: u64) -> bool {
    exists|i: int|
        0 <= i < effects.len() && (#[trigger] effects[i] matches crate::effect::EffectView::StartModel {
            epoch: e,
            ..
        } && e == epoch)
}

/// Whether some effect schedules a retry.
pub open spec fn schedules_a_retry(effects: Seq<crate::effect::EffectView>) -> bool {
    exists|i: int| 0 <= i < effects.len() && #[trigger] effects[i] is ScheduleRetry
}

/// A chain of checks on a step: each check keeps the result when it holds and
/// turns it false when it does not; `holds` reports whether all of them held.
pub struct TransitionAssert<'a> {
    transition: &'a Transition,
    holds: bool,
}

impl<'a> TransitionAssert<'a> {
    /// The step being checked.
    pub closed spec fn target(&self) -> TransitionView {
        self.transition@
    }

    /// The run events of the step being checked.
    pub closed spec fn target_run_events(&self) -> Seq<RunStreamEvent> {
        self.transition.run_events@
    }

    /// The thread events of the step being checked.
    pub closed spec fn target_ui_events(&self) -> Seq<UiThreadEvent> {
        self.transition.ui_events@
    }

    /// Whether every check so far held.
    pub closed spec fn spec_holds(&self) -> bool {
        self.holds
    }

    pub fn new(transition: &'a Transition) -> (r: Self)
        ensures
            r.target() == transition@,
            r.spec_holds(),
    {
        TransitionAssert { transition, holds: true }
    }

    pub fn holds(&self) -> (r: bool)
        ensures
            r == self.spec_holds(),
    {
        self.holds
    }

    fn and(self, ok: bool) -> (r: Self)
        ensures
            r.target() == self.target(),
            r.spec_holds() == (self.spec_holds() && ok),
    {
        TransitionAssert { transition: self.transition, holds: self.holds && ok }
    }

    pub fn has_lifecycle(self, expected: Lifecycle) -> (r: Self)
        ensures
            r.target() == self.target(),
            r.spec_holds() == (self.spec_holds() && self.target().state.lifecycle == expected),
    {
        let ok = self.transition.state.lifecycle == expected;
        self.and(ok)
    }

    pub fn has_model_state(self, expected: ModelState) -> (r: Self)
        ensures
            r.target() == self.target(),
            r.spec_holds() == (self.spec_holds() && self.target().state.model_state == expected),
    {
        let ok = self.transition.state.model_state == expected;
        self.and(ok)
    }

    pub fn has_epoch(self, expected: u64) -> (r: Self)
        ensures
            r.target() == self.target(),
            r.spec_holds() == (self.spec_holds() && self.target().state.epoch == expected),
    {
        let ok = self.transition.state.epoch == expected;
        self.and(ok)
    }

    pub fn has_output_buffer(self, expected: &str) -> (r: Self)
        ensures
            r.target() == self.target(),
            r.spec_holds() == (self.spec_holds() && self.target().state.output_buffer
                == expected@),
    {
        let b = self.transition.state.output_buffer.as_str();
        let ok = str_contains(b, expected) && b.unicode_len() == expected.unicode_len();
        proof {
            if ok {
                let w = choose|i: int|
                    0 <= i <= b@.len() - expected@.len() && #[trigger] b@.subrange(
                        i,
                        i + expected@.len(),
                    ) == expected@;
                assert(b@ =~= b@.subrange(w, w + expected@.len()));
            } else if b@ == expected@ {
                assert(b@.subrange(0, 0int + expected@.len()) =~= expected@);
            }
        }
        self.and(ok)
    }

    pub fn output_buffer_contains(self, expected: &str) -> (r: Self)
        ensures
            r.target() == self.target(),
            r.spec_holds() == (self.spec_holds() && contains(
                self.target().state.output_buffer,
                expected@,
            )),
    {
        let ok = str_contains(self.transition.state.output_buffer.as_str(), expected);
        self.and(ok)
    }

    pub fn has_no_inflight_tools(self) -> (r: Self)
        ensures
            r.target() == self.target(),
            r.spec_holds() == (self.spec_holds() && self.target().state.inflight_tools.is_empty()),
    {
        let ok = self.transition.state.inflight_tools.is_empty();
        proof {
            let m = self.transition.state.inflight_tools@;
            assert(call_views(m).dom() =~= m.dom());
        }
        self.and(ok)
    }

    pub fn has_inflight_tool(self, call_id: &str) -> (r: Self)
        ensures
            r.target() == self.target(),
            r.spec_holds() == (self.spec_holds() && self.target().state.inflight_tools.dom().contains(
                call_id@,
            )),
    {
        let ok = self.transition.state.inflight_tools.contains_key(call_id);
        self.and(ok)
    }

    pub fn has_no_pending_inputs(self) -> (r: Self)
        ensures
            r.target() == self.target(),
            r.spec_holds() == (self.spec_holds() && self.target().state.pending_inputs.len() == 0),
    {
        let ok = self.transition.state.pending_inputs.len() == 0;
        self.and(ok)
    }

    pub fn has_pending_inputs_count(self, expected: usize) -> (r: Self)
        ensures
            r.target() == self.target(),
            r.spec_holds() == (self.spec_holds() && self.target().state.pending_inputs.len()
                == expected),
    {
        let ok = self.transition.state.pending_inputs.len() == expected;
        self.and(ok)
    }

    pub fn has_done_emitted(self, expected: bool) -> (r: Self)
        ensures
            r.target() == self.target(),
            r.spec_holds() == (self.spec_holds() && self.target().state.done_emitted == expected),
    {
        let ok = self.transition.state.done_emitted == expected;
        self.and(ok)
    }

    pub fn has_retry_attempt(self, expected: u32) -> (r: Self)
        ensures
            r.target() == self.target(),
            r.spec_holds() == (self.spec_holds() && self.target().state.retry_attempt == expected),
    {
        let ok = self.transition.state.retry_attempt == expected;
        self.and(ok)
    }

    pub fn has_transcript_count(self, expected: usize) -> (r: Self)
        ensures
            r.target() == self.target(),
            r.spec_holds() == (self.spec_holds() && self.target().state.transcript.len()
                == expected),
    {
        let ok = self.transition.state.transcript.len() == expected;
        self.and(ok)
    }

    fn any_turn_done(&self) -> (r: bool)
        ensures
            r == has_turn_done(self.target().run_events),
    {
        let events = &self.transition.run_events;
        let mut i: usize = 0;
        while i < events.len()
            invariant
                i <= events.len(),
                events == &self.transition.run_events,
                forall|k: int| 0 <= k < i ==> !(#[trigger] views(events@)[k] is TurnDone),
            decreases events.len() - i,
        {
            match &events[i] {
                RunStreamEvent::TurnDone { .. } => {
                    assert(views(events@)[i as int] is TurnDone);
                    return true;
                },
                _ => {},
            }
            i = i + 1;
        }
        false
    }

    pub fn emits_turn_done(self) -> (r: Self)
        ensures
            r.target() == self.target(),
            r.spec_holds() == (self.spec_holds() && has_turn_done(self.target().run_events)),
    {
        let ok = self.any_turn_done();
        self.and(ok)
    }

    pub fn does_not_emit_turn_done(self) -> (r: Self)
        ensures
            r.target() == self.target(),
            r.spec_holds() == (self.spec_holds() && !has_turn_done(self.target().run_events)),
    {
        let ok = !self.any_turn_done();
        self.and(ok)
    }

    /// Checks that `matches` accepts some run event of the step. The predicate is
    /// the caller's, so what holds of the result is stated over what it returned.
    pub fn emits_run_event_matching<F: Fn(&RunStreamEvent) -> bool>(self, matches: F) -> (r: Self)
        requires
            forall|e: &RunStreamEvent| matches.requires((e,)),
        ensures
            r.target() == self.target(),
            r.spec_holds() ==> self.spec_holds(),
            r.spec_holds() ==> exists|i: int|
                0 <= i < self.target_run_events().len() && matches.ensures(
                    (&#[trigger] self.target_run_events()[i],),
                    true,
                ),
    {
        let events = &self.transition.run_events;
        let mut found = false;
        let mut i: usize = 0;
        while i < events.len()
            invariant
                i <= events.len(),
                events == &self.transition.run_events,
                forall|e: &RunStreamEvent| matches.requires((e,)),
                found ==> exists|k: int|
                    0 <= k < events@.len() && matches.ensures((&#[trigger] events@[k],), true),
            decreases events.len() - i,
        {
            let hit = matches(&events[i]);
            if hit {
                assert(matches.ensures((&events@[i as int],), true));
                found = true;
            }
            i = i + 1;
        }
        assert(events@ == self.target_run_events());
        self.and(found)
    }

    /// Checks that `matches` accepts some thread event of the step. The predicate
    /// is the caller's, so what holds of the result is stated over what it returned.
    pub fn emits_ui_event<F: Fn(&UiThreadEvent) -> bool>(self, matches: F) -> (r: Self)
        requires
            forall|e: &UiThreadEvent| matches.requires((e,)),
        ensures
            r.target() == self.target(),
            r.spec_holds() ==> self.spec_holds(),
            r.spec_holds() ==> exists|i: int|
                0 <= i < self.target_ui_events().len() && matches.ensures(
                    (&#[trigger] self.target_ui_events()[i],),
                    true,
                ),
    {
        let events = &self.transition.ui_events;
        let mut found = false;
        let mut i: usize = 0;
        while i < events.len()
            invariant
                i <= events.len(),
                events == &self.transition.ui_events,
                forall|e: &UiThreadEvent| matches.requires((e,)),
                found ==> exists|k: int|
                    0 <= k < events@.len() && matches.ensures((&#[trigger] events@[k],), true),
            decreases events.len() - i,
        {
            let hit = matches(&events[i]);
            if hit {
                assert(matches.ensures((&events@[i as int],), true));
                found = true;
            }
            i = i + 1;
        }
        assert(events@ == self.target_ui_events());
        self.and(found)
    }

    pub fn starts_model_with_epoch(self, expected_epoch: u64) -> (r: Self)
        ensures
            r.target() == self.target(),
            r.spec_holds() == (self.spec_holds() && starts_model(
                self.target().effects,
                expected_epoch,
            )),
    {
        let ok = self.any_start_model(expected_epoch);
        self.and(ok)
    }

    fn any_start_model(&self, expected_epoch: u64) -> (r: bool)
        ensures
            r == starts_model(self.target().effects, expected_epoch),
    {
        let effects = &self.transition.effects;
        let mut i: usize = 0;
        while i < effects.len()
            invariant
                i <= effects.len(),
                effects == &self.transition.effects,
                forall|k: int|
                    0 <= k < i ==> !(#[trigger] views(effects@)[k] matches crate::effect::EffectView::StartModel {
                        epoch: e,
                        ..
                    } && e == expected_epoch),
            decreases effects.len() - i,
        {
            assert(views(effects@)[i as int] == effects@[i as int]@);
            match &effects[i] {
                Effect::StartModel { epoch, .. } => {
                    if *epoch == expected_epoch {
                        return true;
                    }
                },
                _ => {},
            }
            i = i + 1;
        }
        false
    }

    pub fn schedules_retry(self) -> (r: Self)
        ensures
            r.target() == self.target(),
            r.spec_holds() == (self.spec_holds() && schedules_a_retry(self.target().effects)),
    {
        let ok = self.any_retry();
        self.and(ok)
    }

    fn any_retry(&self) -> (r: bool)
        ensures
            r == schedules_a_retry(self.target().effects),
    {
        let effects = &self.transition.effects;
        let mut i: usize = 0;
        while i < effects.len()
            invariant
                i <= effects.len(),
                effects == &self.transition.effects,
                forall|k: int| 0 <= k < i ==> !(#[trigger] views(effects@)[k] is ScheduleRetry),
            decreases effects.len() - i,
        {
            assert(views(effects@)[i as int] == effects@[i as int]@);
            match &effects[i] {
                Effect::ScheduleRetry { .. } => {
                    return true;
                },
                _ => {},
            }
            i = i + 1;
        }
        false
    }
}

/// Different numbers give different call ids and different event ids.
pub proof fn lemma_fixture_ids_distinct(a: u32, b: u32)
    requires
        a != b,
    ensures
        "call_"@ + zero_pad(decimal(a as nat), 3) != "call_"@ + zero_pad(decimal(b as nat), 3),
        "evt_"@ + zero_pad(decimal(a as nat), 3) != "evt_"@ + zero_pad(decimal(b as nat), 3),
{
    crate::text::lemma_zero_pad_decimal_injective(a as nat, b as nat, 3);
    let pa = zero_pad(decimal(a as nat), 3);
    let pb = zero_pad(decimal(b as nat), 3);
    let c = "call_"@;
    let e = "evt_"@;
    if c + pa == c + pb {
        assert((c + pa).subrange(c.len() as int, (c + pa).len() as int) =~= pa);
        assert((c + pb).subrange(c.len() as int, (c + pb).len() as int) =~= pb);
    }
    if e + pa == e + pb {
        assert((e + pa).subrange(e.len() as int, (e + pa).len() as int) =~= pa);
        assert((e + pb).subrange(e.len() as int, (e + pb).len() as int) =~= pb);
    }
}

} // verus!
