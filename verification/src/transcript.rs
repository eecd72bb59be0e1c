//! The transcript of a turn: the items recorded in order.
use vstd::prelude::*;
use vstd::string::StringExecFns;

use crate::dup::{duplicate_vec, views, Duplicate};
use crate::model::{is_uuid_v4_text, new_id, Id, InputEnvelope, InputEnvelopeView, ToolCall, ToolCallView, ToolResult, ToolResultView};

verus! {

/// Severity of a system note.
#[derive(Debug, Clone, Copy, PartialEq, Eq, Structural)]
pub enum NoteLevel {
    Info,
    Warn,
    Error,
}

/// One recorded item of a turn.
#[derive(Debug, Clone, PartialEq, Eq)]
pub enum TranscriptItem {
    UserMessage { id: Id, input: InputEnvelope },
    AssistantMessage { id: Id, text: String },
    Reasoning { id: Id, text: String },
    ToolCall { id: Id, epoch: u64, call: ToolCall },
    ToolResult { id: Id, epoch: u64, result: ToolResult },
    SystemNote { id: Id, level: NoteLevel, message: String },
}

pub enum TranscriptItemView {
    UserMessage { id: Seq<char>, input: InputEnvelopeView },
    AssistantMessage { id: Seq<char>, text: Seq<char> },
    Reasoning { id: Seq<char>, text: Seq<char> },
    ToolCall { id: Seq<char>, epoch: u64, call: ToolCallView },
    ToolResult { id: Seq<char>, epoch: u64, result: ToolResultView },
    SystemNote { id: Seq<char>, level: NoteLevel, message: Seq<char> },
}

impl View for TranscriptItem {
    type V = TranscriptItemView;

    open spec fn view(&self) -> TranscriptItemView {
        match self {
            TranscriptItem::UserMessage { id, input } => TranscriptItemView::UserMessage {
                id: id@,
                input: input@,
            },
            TranscriptItem::AssistantMessage { id, text } => TranscriptItemView::AssistantMessage {
                id: id@,
                text: text@,
            },
            TranscriptItem::Reasoning { id, text } => TranscriptItemView::Reasoning {
                id: id@,
                text: text@,
            },
            TranscriptItem::ToolCall { id, epoch, call } => TranscriptItemView::ToolCall {
                id: id@,
                epoch: *epoch,
                call: call@,
            },
            TranscriptItem::ToolResult { id, epoch, result } => TranscriptItemView::ToolResult {
                id: id@,
                epoch: *epoch,
                result: result@,
            },
            TranscriptItem::SystemNote { id, level, message } => TranscriptItemView::SystemNote {
                id: id@,
                level: *level,
                message: message@,
            },
        }
    }
}

impl Duplicate for TranscriptItem {
    fn duplicate(&self) -> (r: Self) {
        match self {
            TranscriptItem::UserMessage { id, input } => TranscriptItem::UserMessage {
                id: id.clone(),
                input: input.duplicate(),
            },
            TranscriptItem::AssistantMessage { id, text } => TranscriptItem::AssistantMessage {
                id: id.clone(),
                text: text.clone(),
            },
            TranscriptItem::Reasoning { id, text } => TranscriptItem::Reasoning {
                id: id.clone(),
                text: text.clone(),
            },
            TranscriptItem::ToolCall { id, epoch, call } => TranscriptItem::ToolCall {
                id: id.clone(),
                epoch: *epoch,
                call: call.duplicate(),
            },
            TranscriptItem::ToolResult { id, epoch, result } => TranscriptItem::ToolResult {
                id: id.clone(),
                epoch: *epoch,
                result: result.duplicate(),
            },
            TranscriptItem::SystemNote { id, level, message } => TranscriptItem::SystemNote {
                id: id.clone(),
                level: *level,
                message: message.clone(),
            },
        }
    }
}

impl TranscriptItem {
    /// A user message carrying `input`, with a fresh item id.
    pub fn user_message(input: InputEnvelope) -> (r: Self)
        ensures
            r@ matches TranscriptItemView::UserMessage { id: d, input: i } && i == input@
                && is_uuid_v4_text(d),
    {
        TranscriptItem::UserMessage { id: new_id(), input }
    }

    /// An assistant message, with a fresh item id.
    pub fn assistant_message(text: &str) -> (r: Self)
        ensures
            r@ matches TranscriptItemView::AssistantMessage { id: d, text: t } && t == text@
                && is_uuid_v4_text(d),
    {
        TranscriptItem::AssistantMessage { id: new_id(), text: String::from_str(text) }
    }

    /// A reasoning note of the model, with a fresh item id.
    pub fn reasoning(text: &str) -> (r: Self)
        ensures
            r@ matches TranscriptItemView::Reasoning { id: d, text: t } && t == text@ && is_uuid_v4_text(
                d,
            ),
    {
        TranscriptItem::Reasoning { id: new_id(), text: String::from_str(text) }
    }

    /// A tool call made in `epoch`, with a fresh item id.
    pub fn tool_call(epoch: u64, call: ToolCall) -> (r: Self)
        ensures
            r@ matches TranscriptItemView::ToolCall { id: d, epoch: e, call: c } && e == epoch && c
                == call@ && is_uuid_v4_text(d),
    {
        TranscriptItem::ToolCall { id: new_id(), epoch, call }
    }

    /// A tool result received in `epoch`, with a fresh item id.
    pub fn tool_result(epoch: u64, result: ToolResult) -> (r: Self)
        ensures
            r@ matches TranscriptItemView::ToolResult { id: d, epoch: e, result: x } && e == epoch
                && x == result@ && is_uuid_v4_text(d),
    {
        TranscriptItem::ToolResult { id: new_id(), epoch, result }
    }

    /// A system note, with a fresh item id.
    pub fn system_note(level: NoteLevel, message: &str) -> (r: Self)
        ensures
            r@ matches TranscriptItemView::SystemNote { id: d, level: l, message: m } && l == level
                && m == message@ && is_uuid_v4_text(d),
    {
        TranscriptItem::SystemNote { id: new_id(), level, message: String::from_str(message) }
    }

    /// Whether the item records a tool call.
    pub fn is_tool_call(&self) -> (r: bool)
        ensures
            r == (self@ is ToolCall),
    {
        match self {
            TranscriptItem::ToolCall { .. } => true,
            _ => false,
        }
    }
}

/// The transcript of a session: every item appended, in order.
pub struct TranscriptJournal {
    items: Vec<TranscriptItem>,
}

impl View for TranscriptJournal {
    type V = Seq<TranscriptItemView>;

    closed spec fn view(&self) -> Seq<TranscriptItemView> {
        views(self.items@)
    }
}

impl TranscriptJournal {
    /// An empty transcript.
    pub fn new() -> (r: Self)
        ensures
            r@ == Seq::<TranscriptItemView>::empty(),
    {
        let r = TranscriptJournal { items: Vec::new() };
        assert(r@ =~= Seq::<TranscriptItemView>::empty());
        r
    }

    /// Appends items at the end, in order.
    pub fn append(&mut self, items: &[TranscriptItem])
        ensures
            final(self)@ == old(self)@ + views(items@),
    {
        let mut i: usize = 0;
        while i < items.len()
            invariant
                i <= items.len(),
                self@ =~= old(self)@ + views(items@).take(i as int),
            decreases items.len() - i,
        {
            let ghost before = self.items@;
            self.items.push(items[i].duplicate());
            proof {
                assert(views(self.items@) =~= views(before).push(items@[i as int]@));
                assert(views(items@).take(i + 1) =~= views(items@).take(i as int).push(
                    items@[i as int]@,
                ));
            }
            i = i + 1;
        }
        assert(views(items@).take(i as int) =~= views(items@));
    }

    /// Copies of all items, in the order they were appended.
    pub fn all(&self) -> (r: Vec<TranscriptItem>)
        ensures
            views(r@) == self@,
    {
        duplicate_vec(&self.items)
    }
}

impl Default for TranscriptJournal {
    fn default() -> (r: Self)
        ensures
            r@ == Seq::<TranscriptItemView>::empty(),
    {
        Self::new()
    }
}

} // verus!
