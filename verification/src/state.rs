//! The state of one turn and the configuration of the turn engine.
use std::collections::VecDeque;

use vstd::hash_map::StringHashMap;
use vstd::hash_set::StringHashSet;
use vstd::prelude::*;
use vstd::string::StringExecFns;

use crate::dup::views;
use crate::model::{InputEnvelope, InputEnvelopeView, SessionMeta, SessionMetaView, ToolCall, ToolCallView, Usage};
use crate::transcript::{TranscriptItem, TranscriptItemView};

verus! {

/// Where a turn is in its life.
#[derive(Debug, Clone, Copy, PartialEq, Eq, Structural)]
pub enum Lifecycle {
    Active,
    Backoff,
    Done,
    Failed,
}

/// Where the current model call is.
#[derive(Debug, Clone, Copy, PartialEq, Eq, Structural)]
pub enum ModelState {
    NotStarted,
    Streaming,
    Completed,
    Error,
}

/// How transient model errors are retried.
#[derive(Debug, Clone, Copy, PartialEq, Eq, Structural)]
pub struct RetryPolicy {
    pub max_retries: u32,
    pub base_delay_ms: u64,
}

impl Default for RetryPolicy {
    fn default() -> (r: Self)
        ensures
            r == (RetryPolicy { max_retries: 3, base_delay_ms: 200 }),
    {
        RetryPolicy { max_retries: 3, base_delay_ms: 200 }
    }
}

/// Configuration of the turn engine.
#[derive(Debug, Clone, Copy, PartialEq, Eq, Structural)]
pub struct TurnEngineConfig {
    pub max_parallel_tools: usize,
    pub retry_policy: RetryPolicy,
}

impl Default for TurnEngineConfig {
    fn default() -> (r: Self)
        ensures
            r == (TurnEngineConfig {
                max_parallel_tools: 4,
                retry_policy: RetryPolicy { max_retries: 3, base_delay_ms: 200 },
            }),
    {
        TurnEngineConfig { max_parallel_tools: 4, retry_policy: RetryPolicy::default() }
    }
}

/// The state of a turn. Tool calls in flight are keyed by call id; event ids
/// already handled are kept as a set.
pub struct TurnState {
    pub meta: SessionMeta,
    pub lifecycle: Lifecycle,
    pub model_state: ModelState,
    pub epoch: u64,
    pub pending_inputs: VecDeque<InputEnvelope>,
    pub inflight_tools: StringHashMap<ToolCall>,
    pub output_buffer: String,
    pub reasoning_buffer: String,
    pub usage: Usage,
    pub done_emitted: bool,
    pub retry_attempt: u32,
    pub seen_event_ids: StringHashSet,
    pub transcript: Vec<TranscriptItem>,
    pub last_request_inputs: Vec<InputEnvelope>,
}

pub struct TurnStateView {
    pub meta: SessionMetaView,
    pub lifecycle: Lifecycle,
    pub model_state: ModelState,
    pub epoch: u64,
    pub pending_inputs: Seq<InputEnvelopeView>,
    pub inflight_tools: Map<Seq<char>, ToolCallView>,
    pub output_buffer: Seq<char>,
    pub reasoning_buffer: Seq<char>,
    pub usage: Usage,
    pub done_emitted: bool,
    pub retry_attempt: u32,
    pub seen_event_ids: Set<Seq<char>>,
    pub transcript: Seq<TranscriptItemView>,
    pub last_request_inputs: Seq<InputEnvelopeView>,
}

/// The views of the tool calls of a map keyed by call id.
pub open spec fn call_views(m: Map<Seq<char>, ToolCall>) -> Map<Seq<char>, ToolCallView> {
    m.map_values(|c: ToolCall| c@)
}

impl View for TurnState {
    type V = TurnStateView;

    open spec fn view(&self) -> TurnStateView {
        TurnStateView {
            meta: self.meta@,
            lifecycle: self.lifecycle,
            model_state: self.model_state,
            epoch: self.epoch,
            pending_inputs: views(self.pending_inputs@),
            inflight_tools: call_views(self.inflight_tools@),
            output_buffer: self.output_buffer@,
            reasoning_buffer: self.reasoning_buffer@,
            usage: self.usage,
            done_emitted: self.done_emitted,
            retry_attempt: self.retry_attempt,
            seen_event_ids: self.seen_event_ids@,
            transcript: views(self.transcript@),
            last_request_inputs: views(self.last_request_inputs@),
        }
    }
}

/// The number of tool-call items in a transcript.
pub open spec fn count_tool_calls(items: Seq<TranscriptItemView>) -> nat
    decreases items.len(),
{
    if items.len() == 0 {
        0
    } else {
        count_tool_calls(items.drop_last()) + if items.last() is ToolCall {
            1nat
        } else {
            0nat
        }
    }
}

/// The state a turn starts in.
pub open spec fn initial_state(meta: SessionMetaView) -> TurnStateView {
    TurnStateView {
        meta,
        lifecycle: Lifecycle::Active,
        model_state: ModelState::NotStarted,
        epoch: 0,
        pending_inputs: seq![],
        inflight_tools: Map::empty(),
        output_buffer: seq![],
        reasoning_buffer: seq![],
        usage: Usage { input_tokens: 0, output_tokens: 0, total_tokens: 0 },
        done_emitted: false,
        retry_attempt: 0,
        seen_event_ids: Set::empty(),
        transcript: seq![],
        last_request_inputs: seq![],
    }
}

impl TurnStateView {
    /// A turn may finish once the model has completed, no tool call is in
    /// flight, no input waits, and the end has not been announced yet.
    pub open spec fn can_finish(self) -> bool {
        &&& self.model_state == ModelState::Completed
        &&& self.inflight_tools.is_empty()
        &&& self.pending_inputs.len() == 0
        &&& !self.done_emitted
    }

    /// The number of tool calls recorded, as a `u32` (wrapping as `as u32` does).
    pub open spec fn tool_calls_count(self) -> u32 {
        count_tool_calls(self.transcript) as u32
    }

    /// Whether the turn has ended, well or badly.
    pub open spec fn is_terminal(self) -> bool {
        self.lifecycle == Lifecycle::Done || self.lifecycle == Lifecycle::Failed
    }
}

impl TurnState {
    /// The state a turn starts in.
    pub fn new(meta: SessionMeta) -> (r: Self)
        ensures
            r@ == initial_state(meta@),
    {
        let r = TurnState {
            meta,
            lifecycle: Lifecycle::Active,
            model_state: ModelState::NotStarted,
            epoch: 0,
            pending_inputs: VecDeque::new(),
            inflight_tools: StringHashMap::new(),
            output_buffer: String::new(),
            reasoning_buffer: String::new(),
            usage: Usage::default(),
            done_emitted: false,
            retry_attempt: 0,
            seen_event_ids: StringHashSet::new(),
            transcript: Vec::new(),
            last_request_inputs: Vec::new(),
        };
        assert(r@.pending_inputs =~= seq![]);
        assert(r@.transcript =~= seq![]);
        assert(r@.last_request_inputs =~= seq![]);
        assert(r@.inflight_tools =~= Map::empty());
        r
    }

    /// Records `event_id` as handled; returns whether it had been handled before.
    pub fn mark_seen(&mut self, event_id: &str) -> (seen: bool)
        ensures
            seen == old(self)@.seen_event_ids.contains(event_id@),
            final(self)@ == (TurnStateView {
                seen_event_ids: old(self)@.seen_event_ids.insert(event_id@),
                ..old(self)@
            }),
    {
        let inserted = self.seen_event_ids.insert(String::from_str(event_id));
        !inserted
    }

    /// Puts `input` at the back of the pending inputs.
    pub fn enqueue_input(&mut self, input: InputEnvelope)
        ensures
            final(self)@ == (TurnStateView {
                pending_inputs: old(self)@.pending_inputs.push(input@),
                ..old(self)@
            }),
    {
        let ghost old_pending = self.pending_inputs@;
        self.pending_inputs.push_back(input);
        assert(views(self.pending_inputs@) =~= views(old_pending).push(input@));
    }

    /// Takes all pending inputs, oldest first, leaving none.
    pub fn drain_pending_inputs(&mut self) -> (inputs: Vec<InputEnvelope>)
        ensures
            views(inputs@) == old(self)@.pending_inputs,
            final(self)@ == (TurnStateView { pending_inputs: seq![], ..old(self)@ }),
    {
        let mut queue: VecDeque<InputEnvelope> = VecDeque::new();
        std::mem::swap(&mut queue, &mut self.pending_inputs);
        let ghost start = queue@;
        let mut inputs: Vec<InputEnvelope> = Vec::new();
        loop
            invariant
                start == inputs@ + queue@,
            ensures
                start == inputs@,
            decreases queue@.len(),
        {
            match queue.pop_front() {
                Some(x) => {
                    inputs.push(x);
                    assert(start =~= inputs@ + queue@);
                },
                None => {
                    assert(start =~= inputs@);
                    break;
                },
            }
        }
        assert(views(self.pending_inputs@) =~= seq![]);
        inputs
    }

    /// Whether the turn may finish now.
    pub fn can_finish(&self) -> (r: bool)
        ensures
            r == self@.can_finish(),
    {
        self.model_state == ModelState::Completed && self.inflight_tools.is_empty()
            && self.pending_inputs.len() == 0 && !self.done_emitted
    }

    /// The number of tool calls recorded in the transcript.
    pub fn tool_calls_count(&self) -> (r: u32)
        ensures
            r == self@.tool_calls_count(),
    {
        let mut count: usize = 0;
        let mut i: usize = 0;
        while i < self.transcript.len()
            invariant
                i <= self.transcript.len(),
                count == count_tool_calls(views(self.transcript@).take(i as int)),
                count <= i,
            decreases self.transcript.len() - i,
        {
            let ghost items = views(self.transcript@);
            assert(items.take(i + 1).drop_last() =~= items.take(i as int));
            if self.transcript[i].is_tool_call() {
                count = count + 1;
            }
            i = i + 1;
        }
        assert(views(self.transcript@).take(i as int) =~= views(self.transcript@));
        count as u32
    }

    /// The id of the turn.
    pub fn turn_id(&self) -> (r: &str)
        ensures
            r@ == self@.meta.turn_id,
    {
        self.meta.turn_id.as_str()
    }
}

} // verus!
