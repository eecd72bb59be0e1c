//! Model responses of the command-line LLM clients and how they are printed:
//! plain text, Markdown, and the text accumulated from a streamed response.
//!
//! A response's cost is a floating-point number and is kept by the caller, with
//! the JSON rendering that prints it.
use vstd::prelude::*;
use vstd::string::StringExecFns;

use crate::dup::views;
use crate::text::{contains, decimal, write_decimal};

verus! {

/// How a response is printed.
#[derive(Debug, Clone, Copy, PartialEq, Eq, Structural)]
pub enum OutputFormat {
    Text,
    Json,
    Markdown,
}

impl Default for OutputFormat {
    fn default() -> (r: Self)
        ensures
            r == OutputFormat::Text,
    {
        OutputFormat::Text
    }
}

/// A text part of a response.
#[derive(Debug, Clone, PartialEq, Eq)]
pub struct TextPart {
    pub text: String,
}

/// One part of a response. Only text parts are printed; any other kind of part
/// (image, audio, tool call, ...) is held by the name of its kind.
#[derive(Debug, Clone, PartialEq, Eq)]
pub enum Part {
    Text(TextPart),
    Other(String),
}

pub enum PartView {
    Text(Seq<char>),
    Other(Seq<char>),
}

impl View for Part {
    type V = PartView;

    open spec fn view(&self) -> PartView {
        match self {
            Part::Text(t) => PartView::Text(t.text@),
            Part::Other(k) => PartView::Other(k@),
        }
    }
}

/// Token counts of a response.
#[derive(Debug, Clone, Copy, PartialEq, Eq, Structural)]
pub struct ModelUsage {
    pub input_tokens: u64,
    pub output_tokens: u64,
}

/// A complete model response.
#[derive(Debug, Clone)]
pub struct ModelResponse {
    pub content: Vec<Part>,
    pub usage: Option<ModelUsage>,
}

/// The change a streamed chunk brings to one part.
#[derive(Debug, Clone, PartialEq, Eq)]
pub enum PartDelta {
    Text(String),
    Other(String),
}

/// One chunk of a streamed response.
#[derive(Debug, Clone)]
pub struct PartialModelResponse {
    pub delta: Option<PartDelta>,
    pub usage: Option<ModelUsage>,
}

/// The text of a sequence of parts: the texts of the text parts, in order.
pub open spec fn text_of(parts: Seq<PartView>) -> Seq<char>
    decreases parts.len(),
{
    if parts.len() == 0 {
        seq![]
    } else {
        text_of(parts.drop_last()) + match parts.last() {
            PartView::Text(t) => t,
            PartView::Other(_) => seq![],
        }
    }
}

/// The line of a Markdown rendering that reports the token counts.
pub open spec fn usage_markdown(u: ModelUsage) -> Seq<char> {
    "\n\n---\n\n**Usage:** "@ + decimal(u.input_tokens as nat) + " in, "@ + decimal(
        u.output_tokens as nat,
    ) + " out"@
}

/// A Markdown rendering: a heading, the text, then the token counts if known.
pub open spec fn markdown_of(text: Seq<char>, usage: Option<ModelUsage>) -> Seq<char> {
    "## Response\n\n"@ + text + match usage {
        Some(u) => usage_markdown(u),
        None => seq![],
    }
}

/// The text of a streamed chunk: the text of its delta when that is a text delta.
pub open spec fn partial_text_of(delta: Option<PartDelta>) -> Seq<char> {
    match delta {
        Some(PartDelta::Text(t)) => t@,
        _ => seq![],
    }
}

/// The text of a response: its text parts, concatenated in order.
pub fn format_text(response: &ModelResponse) -> (r: String)
    ensures
        r@ == text_of(views(response.content@)),
{
    let mut out = String::new();
    let mut i: usize = 0;
    while i < response.content.len()
        invariant
            i <= response.content.len(),
            out@ == text_of(views(response.content@).take(i as int)),
        decreases response.content.len() - i,
    {
        let ghost ps = views(response.content@);
        assert(ps.take(i + 1).drop_last() =~= ps.take(i as int));
        assert(ps.take(i + 1).last() == ps[i as int]);
        match &response.content[i] {
            Part::Text(t) => out.append(t.text.as_str()),
            Part::Other(_) => {},
        }
        assert(out@ =~= text_of(ps.take(i + 1)));
        i = i + 1;
    }
    assert(views(response.content@).take(i as int) =~= views(response.content@));
    out
}

/// Appends the Markdown line of token counts.
fn append_usage_markdown(md: &mut String, usage: &ModelUsage)
    ensures
        final(md)@ == old(md)@ + usage_markdown(*usage),
{
    md.append("\n\n---\n\n**Usage:** ");
    write_decimal(md, usage.input_tokens);
    md.append(" in, ");
    write_decimal(md, usage.output_tokens);
    md.append(" out");
    assert(final(md)@ =~= old(md)@ + usage_markdown(*usage));
}

/// Builds a Markdown rendering from a text and the token counts, if known.
fn markdown(content: &str, usage: &Option<ModelUsage>) -> (r: String)
    ensures
        r@ == markdown_of(content@, *usage),
{
    let mut md = String::from_str("## Response\n\n");
    md.append(content);
    match usage {
        Some(u) => append_usage_markdown(&mut md, u),
        None => {},
    }
    assert(md@ =~= markdown_of(content@, *usage));
    md
}

/// A response in Markdown: a heading, its text, then its token counts if known.
pub fn format_markdown(response: &ModelResponse) -> (r: String)
    ensures
        r@ == markdown_of(text_of(views(response.content@)), response.usage),
{
    let content = format_text(response);
    markdown(content.as_str(), &response.usage)
}

/// The text of a streamed chunk, empty unless it carries a text delta.
pub fn format_partial_text(response: &PartialModelResponse) -> (r: String)
    ensures
        r@ == partial_text_of(response.delta),
{
    match &response.delta {
        Some(PartDelta::Text(t)) => t.clone(),
        _ => String::new(),
    }
}

/// A streamed chunk in Markdown, as `format_markdown` renders a response.
pub fn format_partial_markdown(response: &PartialModelResponse) -> (r: String)
    ensures
        r@ == markdown_of(partial_text_of(response.delta), response.usage),
{
    let content = format_partial_text(response);
    markdown(content.as_str(), &response.usage)
}

/// A response printed in `format`: its text, or its Markdown rendering. The
/// JSON rendering reports the response's cost, a floating-point number that the
/// caller holds, so for `Json` the caller renders it and `None` comes back.
pub fn format_output(response: &ModelResponse, format: OutputFormat) -> (r: Option<String>)
    ensures
        match format {
            OutputFormat::Text => r matches Some(t) && t@ == text_of(views(response.content@)),
            OutputFormat::Markdown => r matches Some(t) && t@ == markdown_of(
                text_of(views(response.content@)),
                response.usage,
            ),
            OutputFormat::Json => r is None,
        },
{
    match format {
        OutputFormat::Text => Some(format_text(response)),
        OutputFormat::Markdown => Some(format_markdown(response)),
        OutputFormat::Json => None,
    }
}

/// A streamed chunk printed in `format`, as `format_output` prints a response;
/// `None` for `Json`, which the caller renders with the chunk's cost.
pub fn format_partial_output(response: &PartialModelResponse, format: OutputFormat) -> (r: Option<String>)
    ensures
        match format {
            OutputFormat::Text => r matches Some(t) && t@ == partial_text_of(response.delta),
            OutputFormat::Markdown => r matches Some(t) && t@ == markdown_of(
                partial_text_of(response.delta),
                response.usage,
            ),
            OutputFormat::Json => r is None,
        },
{
    match format {
        OutputFormat::Text => Some(format_partial_text(response)),
        OutputFormat::Markdown => Some(format_partial_markdown(response)),
        OutputFormat::Json => None,
    }
}

/// The response a streamed response stands for, once it has ended: the text
/// gathered so far as one text part, and the token counts if a chunk gave them.
pub struct StreamAccumulator {
    /// The text of all text deltas so far.
    pub content: String,
    /// The response to return, once a chunk with token counts or cost has come,
    /// or the complete response if the stream gave one.
    pub final_response: Option<ModelResponse>,
}

/// What the stream accumulator decided for one chunk.
pub struct ChunkOutcome {
    /// Text to print at once, if the chunk carries new text.
    pub print: Option<String>,
    /// The chunk became the response to return; its cost belongs to it.
    pub recorded: bool,
}

impl StreamAccumulator {
    pub fn new() -> (r: Self)
        ensures
            r.content@ == Seq::<char>::empty(),
            r.final_response is None,
    {
        StreamAccumulator { content: String::new(), final_response: None }
    }

    /// Takes one streamed chunk. `has_cost` says whether the chunk reports a cost.
    ///
    /// Non-empty text is printed and gathered; a chunk with token counts or a cost
    /// makes the response to return the text gathered so far with its counts.
    pub fn on_chunk(&mut self, partial: &PartialModelResponse, has_cost: bool) -> (r: ChunkOutcome)
        ensures
            final(self).content@ == old(self).content@ + partial_text_of(partial.delta),
            r.print is Some <==> partial_text_of(partial.delta).len() > 0,
            r.print matches Some(p) ==> p@ == partial_text_of(partial.delta),
            r.recorded == (partial.usage is Some || has_cost),
            r.recorded ==> (final(self).final_response matches Some(resp) && resp.usage
                == partial.usage && views(resp.content@) == seq![
                PartView::Text(final(self).content@)]),
            !r.recorded ==> final(self).final_response == old(self).final_response,
    {
        let mut print: Option<String> = None;
        match &partial.delta {
            Some(PartDelta::Text(t)) => {
                if t.as_str().unicode_len() > 0 {
                    self.content.append(t.as_str());
                    print = Some(t.clone());
                } else {
                    assert(t@ =~= Seq::<char>::empty());
                    assert(self.content@ =~= old(self).content@ + t@);
                }
            },
            _ => {
                assert(self.content@ =~= old(self).content@ + Seq::<char>::empty());
            },
        }
        let recorded = partial.usage.is_some() || has_cost;
        if recorded {
            let mut content: Vec<Part> = Vec::new();
            content.push(Part::Text(TextPart { text: self.content.clone() }));
            assert(views(content@) =~= seq![PartView::Text(self.content@)]);
            self.final_response = Some(ModelResponse { content, usage: partial.usage });
        }
        ChunkOutcome { print, recorded }
    }

    /// Takes the complete response that ends the stream.
    pub fn on_complete(&mut self, response: ModelResponse)
        ensures
            final(self).content@ == old(self).content@,
            final(self).final_response == Some(response),
    {
        self.final_response = Some(response);
    }

    /// The response to return once the stream has ended: the recorded one, or
    /// else the gathered text alone with no token counts.
    pub fn finish(self) -> (r: ModelResponse)
        ensures
            self.final_response matches Some(f) ==> r == f,
            self.final_response is None ==> r.usage is None && views(r.content@) == seq![
                PartView::Text(self.content@)],
    {
        match self.final_response {
            Some(f) => f,
            None => {
                let mut content: Vec<Part> = Vec::new();
                content.push(Part::Text(TextPart { text: self.content }));
                assert(views(content@) =~= seq![PartView::Text(self.content@)]);
                ModelResponse { content, usage: None }
            },
        }
    }
}

/// A response made of one text part.
pub open spec fn single_text(content: Seq<char>) -> Seq<PartView> {
    seq![PartView::Text(content)]
}

/// The text rendering of a response made of one text part is that text.
pub proof fn lemma_text_output_preserves_content(content: Seq<char>)
    ensures
        text_of(single_text(content)) == content,
        contains(text_of(single_text(content)), content),
{
    let ps = single_text(content);
    assert(ps.drop_last() =~= Seq::<PartView>::empty());
    assert(text_of(ps.drop_last()) == Seq::<char>::empty());
    assert(text_of(ps) =~= content);
    assert(content.subrange(0, 0int + content.len()) =~= content);
}

/// A Markdown rendering begins with the heading and then holds the text whole.
pub proof fn lemma_markdown_contains_response(content: Seq<char>, usage: Option<ModelUsage>)
    ensures
        markdown_of(content, usage).subrange(0, 13) == "## Response\n\n"@,
        contains(markdown_of(content, usage), "## Response"@),
        contains(markdown_of(content, usage), content),
{
    reveal_strlit("## Response\n\n");
    reveal_strlit("## Response");
    let md = markdown_of(content, usage);
    let head = "## Response\n\n"@;
    assert(head.len() == 13);
    assert(md.subrange(0, 13) =~= head);
    assert(md.subrange(0, 0int + "## Response"@.len()) =~= "## Response"@);
    assert(md.subrange(13, 13int + content.len()) =~= content);
}

/// A Markdown rendering with token counts reports them: `**Usage:**`, the input
/// count followed by ` in`, and the output count followed by ` out`.
pub proof fn lemma_markdown_reports_usage(content: Seq<char>, u: ModelUsage)
    ensures
        contains(markdown_of(content, Some(u)), "**Usage:**"@),
        contains(markdown_of(content, Some(u)), decimal(u.input_tokens as nat) + " in"@),
        contains(markdown_of(content, Some(u)), decimal(u.output_tokens as nat) + " out"@),
{
    reveal_strlit("## Response\n\n");
    reveal_strlit("\n\n---\n\n**Usage:** ");
    reveal_strlit("**Usage:**");
    reveal_strlit(" in, ");
    reveal_strlit(" in");
    reveal_strlit(" out");
    let md = markdown_of(content, Some(u));
    let a = decimal(u.input_tokens as nat);
    let b = decimal(u.output_tokens as nat);
    let p: int = 13 + content.len() as int;
    let sep = "\n\n---\n\n**Usage:** "@;
    assert(sep.len() == 18);
    assert(md =~= "## Response\n\n"@ + content + sep + a + " in, "@ + b + " out"@);
    assert(md.subrange(p + 7, p + 7 + "**Usage:**"@.len()) =~= "**Usage:**"@);
    let q: int = p + 18;
    assert(md.subrange(q, q + (a + " in"@).len()) =~= a + " in"@);
    let r: int = q + a.len() + 5;
    assert(md.subrange(r, r + (b + " out"@).len()) =~= b + " out"@);
}

} // verus!
