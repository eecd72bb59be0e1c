//! The BigModel chat API as the turn engine sees it: client settings, wire
//! errors, streamed chunks, chat messages, and the conversions between them
//! and the turn's own data.
use vstd::prelude::*;
use vstd::string::StringExecFns;

use crate::dup::{opt_view, views};
use crate::effect::{ModelOutputEvent, ModelRequest};
use crate::error::{AgentError, TransientError};
use crate::model::{InputEnvelope, InputEnvelopeView, InputPart, InputPartView, InputSource, ToolCall, ToolCallView};
use crate::model::Usage as TurnUsage;
use crate::text::{decimal, write_decimal};
use crate::transcript::{NoteLevel, TranscriptItem, TranscriptItemView};

verus! {

/// Where and how the client reaches the API.
#[derive(Debug, Clone, PartialEq, Eq)]
pub struct Config {
    pub api_key: String,
    pub base_url: String,
}

impl Config {
    /// Settings for `api_key` against the public endpoint `https://open.bigmodel.cn`.
    pub fn new(api_key: &str) -> (r: Self)
        ensures
            r.api_key@ == api_key@,
            r.base_url@ == "https://open.bigmodel.cn"@,
    {
        Config {
            api_key: String::from_str(api_key),
            base_url: String::from_str("https://open.bigmodel.cn"),
        }
    }

    /// The same settings against another endpoint.
    pub fn with_base_url(self, base_url: &str) -> (r: Self)
        ensures
            r.api_key@ == self.api_key@,
            r.base_url@ == base_url@,
    {
        Config { api_key: self.api_key, base_url: String::from_str(base_url) }
    }
}

/// The URL of the chat completions endpoint.
pub fn chat_completions_url(config: &Config) -> (r: String)
    ensures
        r@ == config.base_url@ + "/v4/chat/completions"@,
{
    let mut r = config.base_url.clone();
    r.append("/v4/chat/completions");
    r
}

/// Failures of the API. Network and parse failures keep the text of the
/// underlying error.
#[derive(Debug, Clone, PartialEq, Eq)]
pub enum BigModelError {
    InvalidRequest(String),
    AuthenticationError(String),
    RateLimitError(String),
    ServerError(String),
    NetworkError(String),
    ParseError(String),
}

/// The error an HTTP failure status stands for.
pub open spec fn status_error_spec(status: u16, body: Seq<char>) -> (BigModelErrorKind, Seq<char>) {
    if status == 400 {
        (BigModelErrorKind::InvalidRequest, body)
    } else if status == 401 || status == 403 {
        (BigModelErrorKind::AuthenticationError, body)
    } else if status == 429 {
        (BigModelErrorKind::RateLimitError, body)
    } else if 500 <= status <= 599 {
        (BigModelErrorKind::ServerError, body)
    } else {
        (
            BigModelErrorKind::ServerError,
            "Unknown error: "@ + decimal(status as nat) + " - "@ + body,
        )
    }
}

/// The kinds of `BigModelError`.
pub enum BigModelErrorKind {
    InvalidRequest,
    AuthenticationError,
    RateLimitError,
    ServerError,
    NetworkError,
    ParseError,
}

impl BigModelError {
    pub open spec fn kind(self) -> BigModelErrorKind {
        match self {
            BigModelError::InvalidRequest(_) => BigModelErrorKind::InvalidRequest,
            BigModelError::AuthenticationError(_) => BigModelErrorKind::AuthenticationError,
            BigModelError::RateLimitError(_) => BigModelErrorKind::RateLimitError,
            BigModelError::ServerError(_) => BigModelErrorKind::ServerError,
            BigModelError::NetworkError(_) => BigModelErrorKind::NetworkError,
            BigModelError::ParseError(_) => BigModelErrorKind::ParseError,
        }
    }

    pub open spec fn text(self) -> Seq<char> {
        match self {
            BigModelError::InvalidRequest(m) => m@,
            BigModelError::AuthenticationError(m) => m@,
            BigModelError::RateLimitError(m) => m@,
            BigModelError::ServerError(m) => m@,
            BigModelError::NetworkError(m) => m@,
            BigModelError::ParseError(m) => m@,
        }
    }
}

/// The error for a failed HTTP response with `status` and `body`: 400 is an
/// invalid request, 401 and 403 an authentication error, 429 a rate limit,
/// 5xx a server error, and any other status a server error that names it.
pub fn handle_error(status: u16, body: String) -> (r: BigModelError)
    ensures
        (r.kind(), r.text()) == status_error_spec(status, body@),
{
    if status == 400 {
        BigModelError::InvalidRequest(body)
    } else if status == 401 || status == 403 {
        BigModelError::AuthenticationError(body)
    } else if status == 429 {
        BigModelError::RateLimitError(body)
    } else if 500 <= status && status <= 599 {
        BigModelError::ServerError(body)
    } else {
        let mut m = String::from_str("Unknown error: ");
        write_decimal(&mut m, status as u64);
        m.append(" - ");
        m.append(body.as_str());
        BigModelError::ServerError(m)
    }
}

/// Token counts as the API reports them.
#[derive(Debug, Clone, Copy, PartialEq, Eq, Structural)]
pub struct Usage {
    pub prompt_tokens: i32,
    pub completion_tokens: i32,
    pub total_tokens: i32,
}

/// The change a streamed choice carries.
#[derive(Debug, Clone, PartialEq, Eq)]
pub struct Delta {
    pub role: Option<String>,
    pub content: Option<String>,
    pub reasoning_content: Option<String>,
}

/// One choice of a streamed chunk.
#[derive(Debug, Clone, PartialEq, Eq)]
pub struct ChoiceChunk {
    pub index: i32,
    pub delta: Delta,
    pub finish_reason: Option<String>,
}

/// One chunk of a streamed chat response.
#[derive(Debug, Clone, PartialEq, Eq)]
pub struct ChatResponseChunk {
    pub id: String,
    pub created: i64,
    pub model: String,
    pub choices: Vec<ChoiceChunk>,
    pub usage: Option<Usage>,
}

/// A count as an unsigned number; negative counts become zero.
pub open spec fn non_negative(value: i32) -> u64 {
    if value >= 0 {
        value as u64
    } else {
        0
    }
}

/// The turn's token counts for the API's.
pub open spec fn usage_of(u: Usage) -> TurnUsage {
    TurnUsage {
        input_tokens: non_negative(u.prompt_tokens),
        output_tokens: non_negative(u.completion_tokens),
        total_tokens: non_negative(u.total_tokens),
    }
}

pub fn non_negative_u64(value: i32) -> (r: u64)
    ensures
        r == non_negative(value),
{
    if value >= 0 {
        value as u64
    } else {
        0
    }
}

pub fn bigmodel_usage_to_usage(usage: &Usage) -> (r: TurnUsage)
    ensures
        r == usage_of(*usage),
{
    TurnUsage {
        input_tokens: non_negative_u64(usage.prompt_tokens),
        output_tokens: non_negative_u64(usage.completion_tokens),
        total_tokens: non_negative_u64(usage.total_tokens),
    }
}

/// The token counts a chunk reports, if it reports any.
pub fn extract_usage_from_chunk(chunk: &ChatResponseChunk) -> (r: Option<TurnUsage>)
    ensures
        r == match chunk.usage {
            Some(u) => Some(usage_of(u)),
            None => None,
        },
{
    match &chunk.usage {
        Some(u) => Some(bigmodel_usage_to_usage(u)),
        None => None,
    }
}

/// What a model stream yields, as a view.
pub enum OutputView {
    TextDelta { delta: Seq<char> },
    ReasoningDelta { delta: Seq<char> },
    ToolCall { call: ToolCallView },
    Completed { usage: Option<TurnUsage> },
}

impl View for ModelOutputEvent {
    type V = OutputView;

    open spec fn view(&self) -> OutputView {
        match self {
            ModelOutputEvent::TextDelta { delta } => OutputView::TextDelta { delta: delta@ },
            ModelOutputEvent::ReasoningDelta { delta } => OutputView::ReasoningDelta { delta: delta@ },
            ModelOutputEvent::ToolCall { call } => OutputView::ToolCall { call: call@ },
            ModelOutputEvent::Completed { usage } => OutputView::Completed { usage: *usage },
        }
    }
}

/// The deltas one choice yields: its reasoning, then its text, each only if present and not empty.
pub open spec fn choice_outputs(c: ChoiceChunk) -> Seq<OutputView> {
    let reasoning = match c.delta.reasoning_content {
        Some(r) => if r@.len() > 0 {
            seq![OutputView::ReasoningDelta { delta: r@ }]
        } else {
            seq![]
        },
        None => seq![],
    };
    let text = match c.delta.content {
        Some(t) => if t@.len() > 0 {
            seq![OutputView::TextDelta { delta: t@ }]
        } else {
            seq![]
        },
        None => seq![],
    };
    reasoning + text
}

/// The deltas of a sequence of choices, in order.
pub open spec fn choices_outputs(cs: Seq<ChoiceChunk>) -> Seq<OutputView>
    decreases cs.len(),
{
    if cs.len() == 0 {
        seq![]
    } else {
        choices_outputs(cs.drop_last()) + choice_outputs(cs.last())
    }
}

/// The deltas a chunk yields, choice by choice.
pub fn chunk_outputs(chunk: ChatResponseChunk) -> (r: Vec<ModelOutputEvent>)
    ensures
        views(r@) == choices_outputs(chunk.choices@),
{
    let mut r: Vec<ModelOutputEvent> = Vec::new();
    let mut i: usize = 0;
    let choices = chunk.choices;
    while i < choices.len()
        invariant
            i <= choices.len(),
            views(r@) == choices_outputs(choices@.take(i as int)),
        decreases choices.len() - i,
    {
        let c = &choices[i];
        let ghost before = views(r@);
        match &c.delta.reasoning_content {
            Some(d) => {
                if !d.as_str().is_empty() {
                    r.push(ModelOutputEvent::ReasoningDelta { delta: d.clone() });
                }
            },
            None => {},
        }
        let ghost mid = views(r@);
        match &c.delta.content {
            Some(d) => {
                if !d.as_str().is_empty() {
                    r.push(ModelOutputEvent::TextDelta { delta: d.clone() });
                }
            },
            None => {},
        }
        proof {
            assert(choices@.take(i + 1).drop_last() =~= choices@.take(i as int));
            assert(choices@.take(i + 1).last() == *c);
            let co = choice_outputs(*c);
            assert(views(r@) =~= before + co);
        }
        i = i + 1;
    }
    assert(choices@.take(i as int) =~= choices@);
    r
}

/// The turn-level error for an API error: rate limits, network failures and
/// server errors are transient, anything else is a model error.
pub open spec fn agent_error_for(err: BigModelError) -> AgentError {
    match err {
        BigModelError::RateLimitError(m) => AgentError::Transient(
            TransientError::RateLimit { message: m, retry_after_ms: None },
        ),
        BigModelError::NetworkError(m) => AgentError::Transient(
            TransientError::Network { message: m, retry_after_ms: None },
        ),
        BigModelError::ServerError(m) => AgentError::Transient(
            TransientError::ServiceUnavailable { message: m, retry_after_ms: None },
        ),
        BigModelError::InvalidRequest(m) => AgentError::Model { message: m },
        BigModelError::AuthenticationError(m) => AgentError::Model { message: m },
        BigModelError::ParseError(m) => AgentError::Model { message: m },
    }
}

pub fn map_bigmodel_error(err: BigModelError) -> (r: AgentError)
    ensures
        r == agent_error_for(err),
{
    match err {
        BigModelError::RateLimitError(message) => AgentError::Transient(
            TransientError::RateLimit { message, retry_after_ms: None },
        ),
        BigModelError::NetworkError(message) => AgentError::Transient(
            TransientError::Network { message, retry_after_ms: None },
        ),
        BigModelError::ServerError(message) => AgentError::Transient(
            TransientError::ServiceUnavailable { message, retry_after_ms: None },
        ),
        BigModelError::InvalidRequest(message) => AgentError::Model { message },
        BigModelError::AuthenticationError(message) => AgentError::Model { message },
        BigModelError::ParseError(message) => AgentError::Model { message },
    }
}

/// Who speaks a chat message.
#[derive(Debug, Clone, Copy, PartialEq, Eq, Structural)]
pub enum Role {
    System,
    User,
    Assistant,
    Tool,
}

/// The content of a chat message.
#[derive(Debug, Clone, PartialEq, Eq)]
pub enum Content {
    Text(String),
}

/// A chat message.
#[derive(Debug, Clone, PartialEq, Eq)]
pub struct Message {
    pub role: Role,
    pub content: Content,
    pub reasoning_content: Option<String>,
}

pub struct MessageView {
    pub role: Role,
    pub text: Seq<char>,
    pub reasoning: Option<Seq<char>>,
}

impl View for Message {
    type V = MessageView;

    open spec fn view(&self) -> MessageView {
        MessageView {
            role: self.role,
            text: match self.content {
                Content::Text(t) => t@,
            },
            reasoning: opt_view(self.reasoning_content),
        }
    }
}

impl Message {
    pub fn system(text: String) -> (r: Self)
        ensures
            r@ == (MessageView { role: Role::System, text: text@, reasoning: None }),
    {
        Message { role: Role::System, content: Content::Text(text), reasoning_content: None }
    }

    pub fn user(text: String) -> (r: Self)
        ensures
            r@ == (MessageView { role: Role::User, text: text@, reasoning: None }),
    {
        Message { role: Role::User, content: Content::Text(text), reasoning_content: None }
    }

    pub fn assistant(text: String) -> (r: Self)
        ensures
            r@ == (MessageView { role: Role::Assistant, text: text@, reasoning: None }),
    {
        Message { role: Role::Assistant, content: Content::Text(text), reasoning_content: None }
    }
}

/// The prefix a system note is shown with.
pub open spec fn note_prefix_spec(level: NoteLevel) -> Seq<char> {
    match level {
        NoteLevel::Info => "[INFO]"@,
        NoteLevel::Warn => "[WARN]"@,
        NoteLevel::Error => "[ERROR]"@,
    }
}

pub fn note_prefix(level: NoteLevel) -> (r: &'static str)
    ensures
        r@ == note_prefix_spec(level),
{
    match level {
        NoteLevel::Info => "[INFO]",
        NoteLevel::Warn => "[WARN]",
        NoteLevel::Error => "[ERROR]",
    }
}

/// The text of an input part: its text, or its JSON text.
pub open spec fn part_text(p: InputPartView) -> Seq<char> {
    match p {
        InputPartView::Text { text } => text,
        InputPartView::Json { value } => value,
    }
}

/// The texts of the parts joined by line breaks.
pub open spec fn parts_text(parts: Seq<InputPartView>) -> Seq<char>
    decreases parts.len(),
{
    if parts.len() == 0 {
        seq![]
    } else if parts.len() == 1 {
        part_text(parts[0])
    } else {
        parts_text(parts.drop_last()) + "\n"@ + part_text(parts.last())
    }
}

/// Joins the texts of the parts with line breaks.
pub fn format_input_parts(parts: &Vec<InputPart>) -> (r: String)
    ensures
        r@ == parts_text(views(parts@)),
{
    let mut r = String::new();
    let mut i: usize = 0;
    while i < parts.len()
        invariant
            i <= parts.len(),
            r@ == parts_text(views(parts@).take(i as int)),
        decreases parts.len() - i,
    {
        if i > 0 {
            r.append("\n");
        }
        match &parts[i] {
            InputPart::Text { text } => r.append(text.as_str()),
            InputPart::Json { value } => r.append(value.as_str()),
        }
        proof {
            let ps = views(parts@);
            assert(ps.take(i + 1).drop_last() =~= ps.take(i as int));
            assert(ps.take(i + 1).last() == parts@[i as int]@);
            if i == 0 {
                assert(ps.take(1).len() == 1);
            }
        }
        i = i + 1;
    }
    assert(views(parts@).take(i as int) =~= views(parts@));
    r
}

/// The role that speaks for an input source.
pub open spec fn role_of(source: InputSource) -> Role {
    match source {
        InputSource::User => Role::User,
        InputSource::Tool => Role::Tool,
        InputSource::System => Role::System,
    }
}

/// The chat message an input becomes.
pub open spec fn input_message(input: InputEnvelopeView) -> MessageView {
    MessageView { role: role_of(input.source), text: parts_text(input.parts), reasoning: None }
}

pub fn input_envelope_to_message(input: &InputEnvelope) -> (r: Message)
    ensures
        r@ == input_message(input@),
{
    let text = format_input_parts(&input.parts);
    let role = match input.source {
        InputSource::User => Role::User,
        InputSource::Tool => Role::Tool,
        InputSource::System => Role::System,
    };
    Message { role, content: Content::Text(text), reasoning_content: None }
}

/// The text a tool call is shown with in a transcript sent to the model.
pub open spec fn tool_call_text(call: ToolCallView) -> Seq<char> {
    "[tool_call] id="@ + call.call_id + " name="@ + call.tool_name + " args="@ + call.arguments
}

pub fn tool_call_as_text(call: &ToolCall) -> (r: String)
    ensures
        r@ == tool_call_text(call@),
{
    let mut r = String::from_str("[tool_call] id=");
    r.append(call.call_id.as_str());
    r.append(" name=");
    r.append(call.tool_name.as_str());
    r.append(" args=");
    r.append(call.arguments.as_str());
    r
}

/// The chat message a transcript item becomes.
pub open spec fn item_message(item: TranscriptItemView) -> MessageView {
    match item {
        TranscriptItemView::UserMessage { input, .. } => input_message(input),
        TranscriptItemView::AssistantMessage { text, .. } => MessageView {
            role: Role::Assistant,
            text,
            reasoning: None,
        },
        TranscriptItemView::Reasoning { text, .. } => MessageView {
            role: Role::Assistant,
            text: seq![],
            reasoning: Some(text),
        },
        TranscriptItemView::ToolCall { call, .. } => MessageView {
            role: Role::Assistant,
            text: tool_call_text(call),
            reasoning: None,
        },
        TranscriptItemView::ToolResult { result, .. } => MessageView {
            role: Role::Tool,
            text: result.output,
            reasoning: None,
        },
        TranscriptItemView::SystemNote { level, message, .. } => MessageView {
            role: Role::System,
            text: note_prefix_spec(level) + " "@ + message,
            reasoning: None,
        },
    }
}

/// Every transcript item becomes a message.
pub fn transcript_item_to_message(item: &TranscriptItem) -> (r: Option<Message>)
    ensures
        r matches Some(m) && m@ == item_message(item@),
{
    match item {
        TranscriptItem::UserMessage { input, .. } => Some(input_envelope_to_message(input)),
        TranscriptItem::AssistantMessage { text, .. } => Some(Message::assistant(text.clone())),
        TranscriptItem::Reasoning { text, .. } => Some(
            Message {
                role: Role::Assistant,
                content: Content::Text(String::new()),
                reasoning_content: Some(text.clone()),
            },
        ),
        TranscriptItem::ToolCall { call, .. } => Some(Message::assistant(tool_call_as_text(call))),
        TranscriptItem::ToolResult { result, .. } => Some(
            Message {
                role: Role::Tool,
                content: Content::Text(result.output.clone()),
                reasoning_content: None,
            },
        ),
        TranscriptItem::SystemNote { level, message, .. } => {
            let mut text = String::from_str(note_prefix(*level));
            text.append(" ");
            text.append(message.as_str());
            Some(Message::system(text))
        },
    }
}

/// The messages of a model request: the system prompt if any, then the
/// transcript, then the new inputs.
pub open spec fn request_messages(
    system_prompt: Option<Seq<char>>,
    transcript: Seq<TranscriptItemView>,
    inputs: Seq<InputEnvelopeView>,
) -> Seq<MessageView> {
    (match system_prompt {
        Some(p) => seq![MessageView { role: Role::System, text: p, reasoning: None }],
        None => seq![],
    }) + transcript.map_values(|i: TranscriptItemView| item_message(i)) + inputs.map_values(
        |i: InputEnvelopeView| input_message(i),
    )
}

/// Builds the chat messages for a model request.
pub fn build_chat_messages(request: &ModelRequest, system_prompt: &Option<String>) -> (r: Vec<Message>)
    ensures
        views(r@) == request_messages(
            opt_view(*system_prompt),
            views(request.transcript@),
            views(request.inputs@),
        ),
{
    let mut messages: Vec<Message> = Vec::new();
    match system_prompt {
        Some(p) => messages.push(Message::system(p.clone())),
        None => {},
    }
    let ghost head = views(messages@);
    let mut i: usize = 0;
    while i < request.transcript.len()
        invariant
            i <= request.transcript.len(),
            head == (match opt_view(*system_prompt) {
                Some(p) => seq![MessageView { role: Role::System, text: p, reasoning: None }],
                None => seq![],
            }),
            views(messages@) =~= head + views(request.transcript@).take(i as int).map_values(
                |it: TranscriptItemView| item_message(it),
            ),
        decreases request.transcript.len() - i,
    {
        let m = transcript_item_to_message(&request.transcript[i]);
        let ghost before = messages@;
        match m {
            Some(m) => messages.push(m),
            None => {},
        }
        proof {
            let ts = views(request.transcript@);
            let f = |it: TranscriptItemView| item_message(it);
            assert(views(messages@) =~= views(before).push(item_message(ts[i as int])));
            assert(ts.take(i + 1) =~= ts.take(i as int).push(ts[i as int]));
            assert(ts.take(i + 1).map_values(f) =~= ts.take(i as int).map_values(f).push(
                item_message(ts[i as int]),
            ));
        }
        i = i + 1;
    }
    assert(views(request.transcript@).take(i as int) =~= views(request.transcript@));
    let ghost mid = views(messages@);
    let mut j: usize = 0;
    while j < request.inputs.len()
        invariant
            j <= request.inputs.len(),
            views(messages@) =~= mid + views(request.inputs@).take(j as int).map_values(
                |it: InputEnvelopeView| input_message(it),
            ),
        decreases request.inputs.len() - j,
    {
        let ghost before = messages@;
        messages.push(input_envelope_to_message(&request.inputs[j]));
        proof {
            let xs = views(request.inputs@);
            let f = |it: InputEnvelopeView| input_message(it);
            assert(views(messages@) =~= views(before).push(input_message(xs[j as int])));
            assert(xs.take(j + 1) =~= xs.take(j as int).push(xs[j as int]));
            assert(xs.take(j + 1).map_values(f) =~= xs.take(j as int).map_values(f).push(
                input_message(xs[j as int]),
            ));
        }
        j = j + 1;
    }
    assert(views(request.inputs@).take(j as int) =~= views(request.inputs@));
    messages
}

/// The usage to keep after a chunk: the chunk's own if it reports one, else the one kept so far.
pub fn latest_usage(kept: Option<TurnUsage>, chunk: &ChatResponseChunk) -> (r: Option<TurnUsage>)
    ensures
        r == match chunk.usage {
            Some(u) => Some(usage_of(u)),
            None => kept,
        },
{
    match extract_usage_from_chunk(chunk) {
        Some(u) => Some(u),
        None => kept,
    }
}

/// How the adapter talks to the model. Sampling settings are floating-point
/// numbers and are carried as their bit patterns (`f32::to_bits`), untouched.
#[derive(Debug, Clone, PartialEq, Eq)]
pub struct BigModelAdapterConfig {
    pub model: String,
    pub system_prompt: Option<String>,
    pub max_tokens: Option<i32>,
    pub temperature_bits: Option<u32>,
    pub top_p_bits: Option<u32>,
}

impl Default for BigModelAdapterConfig {
    fn default() -> (r: Self)
        ensures
            r.model@ == "glm-4.5"@,
            r.system_prompt is None,
            r.max_tokens is None,
            r.temperature_bits is None,
            r.top_p_bits is None,
    {
        BigModelAdapterConfig {
            model: String::from_str("glm-4.5"),
            system_prompt: None,
            max_tokens: None,
            temperature_bits: None,
            top_p_bits: None,
        }
    }
}

/// A streamed chat request (no tools, no tool choice, no thinking settings).
#[derive(Debug, Clone, PartialEq, Eq)]
pub struct ChatRequest {
    pub model: String,
    pub messages: Vec<Message>,
    pub stream: bool,
    pub max_tokens: Option<i32>,
    pub temperature_bits: Option<u32>,
    pub top_p_bits: Option<u32>,
}

/// The chat request for a model request: the configured model, the system
/// prompt, transcript and inputs as messages, streaming on, and the configured
/// sampling settings.
pub fn convert_model_request(request: &ModelRequest, cfg: &BigModelAdapterConfig) -> (r: ChatRequest)
    ensures
        r.model@ == cfg.model@,
        views(r.messages@) == request_messages(
            opt_view(cfg.system_prompt),
            views(request.transcript@),
            views(request.inputs@),
        ),
        r.stream,
        r.max_tokens == cfg.max_tokens,
        r.temperature_bits == cfg.temperature_bits,
        r.top_p_bits == cfg.top_p_bits,
{
    let messages = build_chat_messages(request, &cfg.system_prompt);
    ChatRequest {
        model: cfg.model.clone(),
        messages,
        stream: true,
        max_tokens: cfg.max_tokens,
        temperature_bits: cfg.temperature_bits,
        top_p_bits: cfg.top_p_bits,
    }
}

/// What the model produced (an answer, reasoning, a tool call) goes back to it
/// as an assistant message; a tool's result as a tool message; a note as a
/// system message; only input keeps the role of its source, so only input from
/// the user becomes a user message. The texts are the item's own.
pub proof fn lemma_item_message_roles(item: TranscriptItemView)
    ensures
        (item is AssistantMessage || item is Reasoning || item is ToolCall) ==> item_message(
            item,
        ).role == Role::Assistant,
        item is ToolResult ==> item_message(item).role == Role::Tool,
        item is SystemNote ==> item_message(item).role == Role::System,
        item_message(item).role == Role::User ==> (item matches TranscriptItemView::UserMessage {
            input,
            ..
        } && input.source == InputSource::User),
        item matches TranscriptItemView::UserMessage { input, .. } ==> item_message(item).role == (
        match input.source {
            InputSource::User => Role::User,
            InputSource::Tool => Role::Tool,
            InputSource::System => Role::System,
        }),
        item matches TranscriptItemView::AssistantMessage { text, .. } ==> item_message(item).text
            == text && item_message(item).reasoning is None,
        item matches TranscriptItemView::Reasoning { text, .. } ==> item_message(item).reasoning
            == Some(text),
        item matches TranscriptItemView::ToolCall { call, .. } ==> item_message(item).text == "[tool_call] id="@
            + call.call_id + " name="@ + call.tool_name + " args="@ + call.arguments,
        item matches TranscriptItemView::ToolResult { result, .. } ==> item_message(item).text
            == result.output,
{
}

/// The API's prompt tokens are the turn's input tokens and its completion
/// tokens the output tokens; a negative count is taken as zero.
pub proof fn lemma_usage_counts(u: Usage)
    ensures
        u.prompt_tokens >= 0 ==> usage_of(u).input_tokens == u.prompt_tokens,
        u.prompt_tokens < 0 ==> usage_of(u).input_tokens == 0,
        u.completion_tokens >= 0 ==> usage_of(u).output_tokens == u.completion_tokens,
        u.completion_tokens < 0 ==> usage_of(u).output_tokens == 0,
        u.total_tokens >= 0 ==> usage_of(u).total_tokens == u.total_tokens,
        u.total_tokens < 0 ==> usage_of(u).total_tokens == 0,
{
}

/// A streamed choice's reasoning becomes a reasoning delta and its content a
/// text delta, reasoning first; an absent or empty part yields nothing.
pub proof fn lemma_choice_deltas(c: ChoiceChunk)
    ensures
        ({
            let has_r = c.delta.reasoning_content matches Some(r) && r@.len() > 0;
            let has_t = c.delta.content matches Some(t) && t@.len() > 0;
            &&& !has_r && !has_t ==> choice_outputs(c).len() == 0
            &&& has_r && !has_t ==> choice_outputs(c) == seq![
                OutputView::ReasoningDelta { delta: c.delta.reasoning_content.unwrap()@ },
            ]
            &&& !has_r && has_t ==> choice_outputs(c) == seq![
                OutputView::TextDelta { delta: c.delta.content.unwrap()@ },
            ]
            &&& has_r && has_t ==> choice_outputs(c) == seq![
                OutputView::ReasoningDelta { delta: c.delta.reasoning_content.unwrap()@ },
                OutputView::TextDelta { delta: c.delta.content.unwrap()@ },
            ]
        }),
{
    let reasoning = match c.delta.reasoning_content {
        Some(r) => if r@.len() > 0 {
            seq![OutputView::ReasoningDelta { delta: r@ }]
        } else {
            seq![]
        },
        None => seq![],
    };
    let text = match c.delta.content {
        Some(t) => if t@.len() > 0 {
            seq![OutputView::TextDelta { delta: t@ }]
        } else {
            seq![]
        },
        None => seq![],
    };
    assert(choice_outputs(c) == reasoning + text);
    assert(reasoning + Seq::<OutputView>::empty() =~= reasoning);
    assert(Seq::<OutputView>::empty() + text =~= text);
    if reasoning.len() == 1 && text.len() == 1 {
        assert(reasoning + text =~= seq![reasoning[0], text[0]]);
    }
}

} // verus!
