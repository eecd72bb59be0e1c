//! The data that flows between a turn, its inputs, the model and the tools.
//!
//! JSON values (tool arguments, tool outputs, JSON input parts) are held as
//! their compact JSON text.
use vstd::prelude::*;
use vstd::string::StringExecFns;

use crate::dup::{duplicate_vec, views, Duplicate};

verus! {

/// Identifiers are strings.
pub type Id = String;

/// Whether `c` is a lowercase hexadecimal digit.
pub open spec fn is_lower_hex(c: char) -> bool {
    ('0' <= c && c <= '9') || ('a' <= c && c <= 'f')
}

/// Whether `s` is the text of a version 4 UUID as `uuid` displays it: 36
/// characters, hyphens at 8, 13, 18 and 23, lowercase hexadecimal digits
/// elsewhere, the version digit `4` at 14 and a variant digit from `8` to `b` at 19.
pub open spec fn is_uuid_v4_text(s: Seq<char>) -> bool {
    &&& s.len() == 36
    &&& forall|i: int|
        0 <= i < 36 ==> if i == 8 || i == 13 || i == 18 || i == 23 {
            #[trigger] s[i] == '-'
        } else {
            is_lower_hex(s[i])
        }
    &&& s[14] == '4'
    &&& (s[19] == '8' || s[19] == '9' || s[19] == 'a' || s[19] == 'b')
}

/// A fresh random identifier: the hyphenated text of a version 4 UUID.
///
/// Calls `uuid::Uuid::new_v4` and displays it. Claimed: the text has the
/// shape of a version 4 UUID (`new_v4` masks in the version and variant bits,
/// and `Display` writes the lowercase hyphenated form). The random digits
/// themselves are not stated.
#[verifier::external_body]
pub fn new_id() -> (id: String)
    ensures
        is_uuid_v4_text(id@),
{
    uuid::Uuid::new_v4().to_string()
}

/// The lowercase hexadecimal digit for a value below sixteen.
pub open spec fn lower_hex_digit(d: int) -> char {
    if d < 10 {
        (48 + d) as char
    } else {
        (87 + d) as char
    }
}

/// How `serde_json` writes one character inside a string literal: `"` and `\`
/// behind a backslash; backspace, tab, line feed, form feed and carriage return
/// as `\b`, `\t`, `\n`, `\f`, `\r`; any other character below U+0020 as
/// `\u00` and two lowercase hexadecimal digits; every other character as it is.
pub open spec fn json_escape_char(c: char) -> Seq<char> {
    if c == '"' {
        seq!['\\', '"']
    } else if c == '\\' {
        seq!['\\', '\\']
    } else if c == '\u{8}' {
        seq!['\\', 'b']
    } else if c == '\t' {
        seq!['\\', 't']
    } else if c == '\n' {
        seq!['\\', 'n']
    } else if c == '\u{c}' {
        seq!['\\', 'f']
    } else if c == '\r' {
        seq!['\\', 'r']
    } else if (c as int) < 0x20 {
        seq!['\\', 'u', '0', '0', lower_hex_digit(c as int / 16), lower_hex_digit(c as int % 16)]
    } else {
        seq![c]
    }
}

/// The characters of `s`, each written as `json_escape_char` writes it.
pub open spec fn json_escaped(s: Seq<char>) -> Seq<char>
    decreases s.len(),
{
    if s.len() == 0 {
        seq![]
    } else {
        json_escaped(s.drop_last()) + json_escape_char(s.last())
    }
}

/// The JSON string literal that `serde_json` writes for `s`: the escaped
/// characters between double quotes.
pub open spec fn json_string_literal(s: Seq<char>) -> Seq<char> {
    seq!['"'] + json_escaped(s) + seq!['"']
}

/// Serializes a string as a JSON string literal with `serde_json::to_string`.
///
/// Claimed: the result is `json_string_literal(s)`, as `serde_json`'s
/// compact formatter writes a string (its escape table, and `\u00XX` with
/// lowercase hexadecimal digits for other control characters). Serializing a
/// `str` does not fail in `serde_json`; the empty string the wrapper falls back
/// to is never produced.
#[verifier::external_body]
pub(crate) fn json_string(s: &str) -> (r: String)
    ensures
        r@ == json_string_literal(s@),
{
    serde_json::to_string(s).unwrap_or_default()
}

/// Where an input comes from.
#[derive(Debug, Clone, Copy, PartialEq, Eq, Structural)]
pub enum InputSource {
    User,
    Tool,
    System,
}

/// One part of an input: plain text or a JSON value (as its JSON text).
#[derive(Debug, Clone, PartialEq, Eq)]
pub enum InputPart {
    Text { text: String },
    Json { value: String },
}

pub enum InputPartView {
    Text { text: Seq<char> },
    Json { value: Seq<char> },
}

impl View for InputPart {
    type V = InputPartView;

    open spec fn view(&self) -> InputPartView {
        match self {
            InputPart::Text { text } => InputPartView::Text { text: text@ },
            InputPart::Json { value } => InputPartView::Json { value: value@ },
        }
    }
}

impl Duplicate for InputPart {
    fn duplicate(&self) -> (r: Self) {
        match self {
            InputPart::Text { text } => InputPart::Text { text: text.clone() },
            InputPart::Json { value } => InputPart::Json { value: value.clone() },
        }
    }
}

/// An input to a turn: an identifier, a source and its parts.
#[derive(Debug, Clone, PartialEq, Eq)]
pub struct InputEnvelope {
    pub id: Id,
    pub source: InputSource,
    pub parts: Vec<InputPart>,
}

pub struct InputEnvelopeView {
    pub id: Seq<char>,
    pub source: InputSource,
    pub parts: Seq<InputPartView>,
}

impl View for InputEnvelope {
    type V = InputEnvelopeView;

    open spec fn view(&self) -> InputEnvelopeView {
        InputEnvelopeView { id: self.id@, source: self.source, parts: views(self.parts@) }
    }
}

impl Duplicate for InputEnvelope {
    fn duplicate(&self) -> (r: Self) {
        InputEnvelope { id: self.id.clone(), source: self.source, parts: duplicate_vec(&self.parts) }
    }
}

/// The input made of one JSON part, from the given source.
pub open spec fn json_input(id: Seq<char>, source: InputSource, value: Seq<char>) -> InputEnvelopeView {
    InputEnvelopeView { id, source, parts: seq![InputPartView::Json { value }] }
}

/// The input made of one text part, from the given source.
pub open spec fn text_input(id: Seq<char>, source: InputSource, text: Seq<char>) -> InputEnvelopeView {
    InputEnvelopeView { id, source, parts: seq![InputPartView::Text { text }] }
}

impl InputEnvelope {
    /// A user input of one text part, with the given identifier.
    pub fn user_text_with_id(id: String, text: &str) -> (r: Self)
        ensures
            r@ == text_input(id@, InputSource::User, text@),
    {
        let mut parts = Vec::new();
        parts.push(InputPart::Text { text: String::from_str(text) });
        let r = InputEnvelope { id, source: InputSource::User, parts };
        assert(r@.parts =~= seq![InputPartView::Text { text: text@ }]);
        r
    }

    /// A user input of one text part, with a fresh identifier.
    pub fn user_text(text: &str) -> (r: Self)
        ensures
            r@.source == InputSource::User,
            r@.parts == seq![InputPartView::Text { text: text@ }],
            is_uuid_v4_text(r@.id),
    {
        Self::user_text_with_id(new_id(), text)
    }

    /// A tool input of one JSON part, with the given identifier.
    pub fn tool_json_with_id(id: String, value: String) -> (r: Self)
        ensures
            r@ == json_input(id@, InputSource::Tool, value@),
    {
        let ghost v = value@;
        let mut parts = Vec::new();
        parts.push(InputPart::Json { value });
        let r = InputEnvelope { id, source: InputSource::Tool, parts };
        assert(r@.parts =~= seq![InputPartView::Json { value: v }]);
        r
    }

    /// A tool input of one JSON part, with a fresh identifier.
    pub fn tool_json(value: String) -> (r: Self)
        ensures
            r@.source == InputSource::Tool,
            r@.parts == seq![InputPartView::Json { value: value@ }],
            is_uuid_v4_text(r@.id),
    {
        Self::tool_json_with_id(new_id(), value)
    }
}

/// A call of a tool that the model asked for.
#[derive(Debug, Clone, PartialEq, Eq)]
pub struct ToolCall {
    pub call_id: Id,
    pub tool_name: String,
    pub arguments: String,
}

pub struct ToolCallView {
    pub call_id: Seq<char>,
    pub tool_name: Seq<char>,
    pub arguments: Seq<char>,
}

impl View for ToolCall {
    type V = ToolCallView;

    open spec fn view(&self) -> ToolCallView {
        ToolCallView { call_id: self.call_id@, tool_name: self.tool_name@, arguments: self.arguments@ }
    }
}

impl Duplicate for ToolCall {
    fn duplicate(&self) -> (r: Self) {
        ToolCall {
            call_id: self.call_id.clone(),
            tool_name: self.tool_name.clone(),
            arguments: self.arguments.clone(),
        }
    }
}

impl ToolCall {
    /// A call of `tool_name` with the given JSON arguments and a fresh call id.
    pub fn new(tool_name: &str, arguments: String) -> (r: Self)
        ensures
            r@.tool_name == tool_name@,
            r@.arguments == arguments@,
            is_uuid_v4_text(r@.call_id),
    {
        ToolCall { call_id: new_id(), tool_name: String::from_str(tool_name), arguments }
    }
}

/// The outcome of a tool call: its output as JSON text, and whether it failed.
#[derive(Debug, Clone, PartialEq, Eq)]
pub struct ToolResult {
    pub call_id: Id,
    pub output: String,
    pub is_error: bool,
}

pub struct ToolResultView {
    pub call_id: Seq<char>,
    pub output: Seq<char>,
    pub is_error: bool,
}

impl View for ToolResult {
    type V = ToolResultView;

    open spec fn view(&self) -> ToolResultView {
        ToolResultView { call_id: self.call_id@, output: self.output@, is_error: self.is_error }
    }
}

impl Duplicate for ToolResult {
    fn duplicate(&self) -> (r: Self) {
        ToolResult {
            call_id: self.call_id.clone(),
            output: self.output.clone(),
            is_error: self.is_error,
        }
    }
}

/// The JSON text of the object `{"error": message}`.
pub open spec fn error_object_json(message: Seq<char>) -> Seq<char> {
    "{\"error\":"@ + json_string_literal(message) + "}"@
}

impl ToolResult {
    /// A successful result with the given JSON output.
    pub fn ok(call_id: &str, output: String) -> (r: Self)
        ensures
            r@ == (ToolResultView { call_id: call_id@, output: output@, is_error: false }),
    {
        ToolResult { call_id: String::from_str(call_id), output, is_error: false }
    }

    /// A failed result whose output is the JSON object `{"error": message}`.
    pub fn err(call_id: &str, message: &str) -> (r: Self)
        ensures
            r@ == (ToolResultView {
                call_id: call_id@,
                output: error_object_json(message@),
                is_error: true,
            }),
    {
        let quoted = json_string(message);
        Self::err_quoted(call_id, quoted.as_str())
    }

    /// A failed result whose output is `{"error": ...}` around `quoted_message`,
    /// the message already written as a JSON string literal.
    pub fn err_quoted(call_id: &str, quoted_message: &str) -> (r: Self)
        ensures
            r@ == (ToolResultView {
                call_id: call_id@,
                output: "{\"error\":"@ + quoted_message@ + "}"@,
                is_error: true,
            }),
    {
        let mut output = String::from_str("{\"error\":");
        output.append(quoted_message);
        output.append("}");
        ToolResult { call_id: String::from_str(call_id), output, is_error: true }
    }
}

/// Token counts of model calls.
#[derive(Debug, Clone, Copy, PartialEq, Eq, Structural)]
pub struct Usage {
    pub input_tokens: u64,
    pub output_tokens: u64,
    pub total_tokens: u64,
}

impl Default for Usage {
    fn default() -> (r: Self)
        ensures
            r == (Usage { input_tokens: 0, output_tokens: 0, total_tokens: 0 }),
    {
        Usage { input_tokens: 0, output_tokens: 0, total_tokens: 0 }
    }
}

/// Addition that stops at `u64::MAX`.
pub open spec fn sat_add(a: u64, b: u64) -> u64 {
    if a + b > u64::MAX {
        u64::MAX
    } else {
        (a + b) as u64
    }
}

/// The counts of `a` and `b` added field by field, each stopping at `u64::MAX`.
pub open spec fn merged_usage(a: Usage, b: Usage) -> Usage {
    Usage {
        input_tokens: sat_add(a.input_tokens, b.input_tokens),
        output_tokens: sat_add(a.output_tokens, b.output_tokens),
        total_tokens: sat_add(a.total_tokens, b.total_tokens),
    }
}

impl Usage {
    /// Adds `other` into `self`, field by field, saturating at `u64::MAX`.
    pub fn merge(&mut self, other: &Usage)
        ensures
            *final(self) == merged_usage(*old(self), *other),
    {
        self.input_tokens = self.input_tokens.saturating_add(other.input_tokens);
        self.output_tokens = self.output_tokens.saturating_add(other.output_tokens);
        self.total_tokens = self.total_tokens.saturating_add(other.total_tokens);
    }
}

/// Merging counts is commutative, and merging zero counts changes nothing.
pub proof fn lemma_merge_commutative_with_identity(a: Usage, b: Usage)
    ensures
        merged_usage(a, b) == merged_usage(b, a),
        merged_usage(a, Usage { input_tokens: 0, output_tokens: 0, total_tokens: 0 }) == a,
{
}

/// Merging counts is associative: the totals of a turn do not depend on how its
/// calls' counts are grouped.
pub proof fn lemma_merge_associative(a: Usage, b: Usage, c: Usage)
    ensures
        merged_usage(merged_usage(a, b), c) == merged_usage(a, merged_usage(b, c)),
{
}

/// The session and turn that a turn belongs to.
#[derive(Debug, Clone, PartialEq, Eq)]
pub struct SessionMeta {
    pub session_id: Id,
    pub turn_id: Id,
}

pub struct SessionMetaView {
    pub session_id: Seq<char>,
    pub turn_id: Seq<char>,
}

impl View for SessionMeta {
    type V = SessionMetaView;

    open spec fn view(&self) -> SessionMetaView {
        SessionMetaView { session_id: self.session_id@, turn_id: self.turn_id@ }
    }
}

impl Duplicate for SessionMeta {
    fn duplicate(&self) -> (r: Self) {
        SessionMeta { session_id: self.session_id.clone(), turn_id: self.turn_id.clone() }
    }
}

impl SessionMeta {
    pub fn new(session_id: &str, turn_id: &str) -> (r: Self)
        ensures
            r@ == (SessionMetaView { session_id: session_id@, turn_id: turn_id@ }),
    {
        SessionMeta { session_id: String::from_str(session_id), turn_id: String::from_str(turn_id) }
    }
}

} // verus!
