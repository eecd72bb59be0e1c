//! What a turn reports: run-stream events for programs and thread events for
//! a user interface.
use vstd::prelude::*;

use crate::dup::opt_view;
use crate::model::{Id, ToolResult, ToolResultView, Usage};

verus! {

/// Progress of a tool call.
#[derive(Debug, Clone, Copy, PartialEq, Eq, Structural)]
pub enum ToolCallStatus {
    Planned,
    Running,
    Completed,
    Failed,
}

/// Summary counts of a finished turn.
#[derive(Debug, Clone, Copy, PartialEq, Eq, Structural)]
pub struct TurnStats {
    pub tool_calls_count: u32,
    pub total_input_tokens: u64,
    pub total_output_tokens: u64,
}

impl Default for TurnStats {
    fn default() -> (r: Self)
        ensures
            r == (TurnStats { tool_calls_count: 0, total_input_tokens: 0, total_output_tokens: 0 }),
    {
        TurnStats { tool_calls_count: 0, total_input_tokens: 0, total_output_tokens: 0 }
    }
}

/// Events of the run stream.
#[derive(Debug, Clone, PartialEq, Eq)]
pub enum RunStreamEvent {
    TurnStart { turn_id: Id },
    InputInjected { turn_id: Id, input_id: Id },
    ToolExecutionPlanned { turn_id: Id, call_id: Id, tool_name: String },
    ToolExecutionStart { turn_id: Id, call_id: Id, tool_name: String },
    ToolExecutionDone { turn_id: Id, result: ToolResult },
    ToolExecutionError { turn_id: Id, result: ToolResult },
    ModelCompleted { turn_id: Id, usage: Option<Usage> },
    Retrying { turn_id: Id, attempt: u32, next_epoch: u64, delay_ms: u64 },
    TransientError { turn_id: Id, message: String, can_retry: bool },
    ProtocolWarning { turn_id: Id, message: String },
    TurnDone { turn_id: Id, final_message: Option<String>, usage: Usage, stats: TurnStats },
    TurnFailed { turn_id: Id, message: String },
}

pub enum RunStreamEventView {
    TurnStart { turn_id: Seq<char> },
    InputInjected { turn_id: Seq<char>, input_id: Seq<char> },
    ToolExecutionPlanned { turn_id: Seq<char>, call_id: Seq<char>, tool_name: Seq<char> },
    ToolExecutionStart { turn_id: Seq<char>, call_id: Seq<char>, tool_name: Seq<char> },
    ToolExecutionDone { turn_id: Seq<char>, result: ToolResultView },
    ToolExecutionError { turn_id: Seq<char>, result: ToolResultView },
    ModelCompleted { turn_id: Seq<char>, usage: Option<Usage> },
    Retrying { turn_id: Seq<char>, attempt: u32, next_epoch: u64, delay_ms: u64 },
    TransientError { turn_id: Seq<char>, message: Seq<char>, can_retry: bool },
    ProtocolWarning { turn_id: Seq<char>, message: Seq<char> },
    TurnDone {
        turn_id: Seq<char>,
        final_message: Option<Seq<char>>,
        usage: Usage,
        stats: TurnStats,
    },
    TurnFailed { turn_id: Seq<char>, message: Seq<char> },
}

impl View for RunStreamEvent {
    type V = RunStreamEventView;

    open spec fn view(&self) -> RunStreamEventView {
        match self {
            RunStreamEvent::TurnStart { turn_id } => RunStreamEventView::TurnStart {
                turn_id: turn_id@,
            },
            RunStreamEvent::InputInjected { turn_id, input_id } =>
                RunStreamEventView::InputInjected { turn_id: turn_id@, input_id: input_id@ },
            RunStreamEvent::ToolExecutionPlanned { turn_id, call_id, tool_name } =>
                RunStreamEventView::ToolExecutionPlanned {
                turn_id: turn_id@,
                call_id: call_id@,
                tool_name: tool_name@,
            },
            RunStreamEvent::ToolExecutionStart { turn_id, call_id, tool_name } =>
                RunStreamEventView::ToolExecutionStart {
                turn_id: turn_id@,
                call_id: call_id@,
                tool_name: tool_name@,
            },
            RunStreamEvent::ToolExecutionDone { turn_id, result } =>
                RunStreamEventView::ToolExecutionDone { turn_id: turn_id@, result: result@ },
            RunStreamEvent::ToolExecutionError { turn_id, result } =>
                RunStreamEventView::ToolExecutionError { turn_id: turn_id@, result: result@ },
            RunStreamEvent::ModelCompleted { turn_id, usage } =>
                RunStreamEventView::ModelCompleted { turn_id: turn_id@, usage: *usage },
            RunStreamEvent::Retrying { turn_id, attempt, next_epoch, delay_ms } =>
                RunStreamEventView::Retrying {
                turn_id: turn_id@,
                attempt: *attempt,
                next_epoch: *next_epoch,
                delay_ms: *delay_ms,
            },
            RunStreamEvent::TransientError { turn_id, message, can_retry } =>
                RunStreamEventView::TransientError {
                turn_id: turn_id@,
                message: message@,
                can_retry: *can_retry,
            },
            RunStreamEvent::ProtocolWarning { turn_id, message } =>
                RunStreamEventView::ProtocolWarning { turn_id: turn_id@, message: message@ },
            RunStreamEvent::TurnDone { turn_id, final_message, usage, stats } =>
                RunStreamEventView::TurnDone {
                turn_id: turn_id@,
                final_message: opt_view(*final_message),
                usage: *usage,
                stats: *stats,
            },
            RunStreamEvent::TurnFailed { turn_id, message } => RunStreamEventView::TurnFailed {
                turn_id: turn_id@,
                message: message@,
            },
        }
    }
}

/// Events of the thread a user interface renders.
#[derive(Debug, Clone, PartialEq, Eq)]
pub enum UiThreadEvent {
    MessageDelta { turn_id: Id, delta: String },
    ReasoningDelta { turn_id: Id, delta: String },
    ToolCallRequested { turn_id: Id, call_id: Id, tool_name: String },
    ToolCallProgress { turn_id: Id, call_id: Id, status: ToolCallStatus },
    ToolCallCompleted { turn_id: Id, result: ToolResult },
    Warning { turn_id: Id, message: String },
    Error { turn_id: Id, message: String },
    Done { turn_id: Id, summary: Option<String>, stats: TurnStats },
}

pub enum UiThreadEventView {
    MessageDelta { turn_id: Seq<char>, delta: Seq<char> },
    ReasoningDelta { turn_id: Seq<char>, delta: Seq<char> },
    ToolCallRequested { turn_id: Seq<char>, call_id: Seq<char>, tool_name: Seq<char> },
    ToolCallProgress { turn_id: Seq<char>, call_id: Seq<char>, status: ToolCallStatus },
    ToolCallCompleted { turn_id: Seq<char>, result: ToolResultView },
    Warning { turn_id: Seq<char>, message: Seq<char> },
    Error { turn_id: Seq<char>, message: Seq<char> },
    Done { turn_id: Seq<char>, summary: Option<Seq<char>>, stats: TurnStats },
}

impl View for UiThreadEvent {
    type V = UiThreadEventView;

    open spec fn view(&self) -> UiThreadEventView {
        match self {
            UiThreadEvent::MessageDelta { turn_id, delta } => UiThreadEventView::MessageDelta {
                turn_id: turn_id@,
                delta: delta@,
            },
            UiThreadEvent::ReasoningDelta { turn_id, delta } => UiThreadEventView::ReasoningDelta {
                turn_id: turn_id@,
                delta: delta@,
            },
            UiThreadEvent::ToolCallRequested { turn_id, call_id, tool_name } =>
                UiThreadEventView::ToolCallRequested {
                turn_id: turn_id@,
                call_id: call_id@,
                tool_name: tool_name@,
            },
            UiThreadEvent::ToolCallProgress { turn_id, call_id, status } =>
                UiThreadEventView::ToolCallProgress {
                turn_id: turn_id@,
                call_id: call_id@,
                status: *status,
            },
            UiThreadEvent::ToolCallCompleted { turn_id, result } =>
                UiThreadEventView::ToolCallCompleted { turn_id: turn_id@, result: result@ },
            UiThreadEvent::Warning { turn_id, message } => UiThreadEventView::Warning {
                turn_id: turn_id@,
                message: message@,
            },
            UiThreadEvent::Error { turn_id, message } => UiThreadEventView::Error {
                turn_id: turn_id@,
                message: message@,
            },
            UiThreadEvent::Done { turn_id, summary, stats } => UiThreadEventView::Done {
                turn_id: turn_id@,
                summary: opt_view(*summary),
                stats: *stats,
            },
        }
    }
}

} // verus!
