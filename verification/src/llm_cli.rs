//! The decisions of the command-line LLM clients: their options, where the API
//! key comes from, whether to stream, and what a line typed at the prompt means.
use vstd::prelude::*;
use vstd::string::StringExecFns;

use crate::dup::opt_view;
use crate::llm_output::{ModelUsage, OutputFormat};
use crate::text::{decimal, trim, trim_str, write_decimal};

verus! {

/// Options shared by every provider command.
#[derive(Debug, Clone)]
pub struct CommonOpts {
    /// API key given on the command line.
    pub api_key: Option<String>,
    /// Read prompts at an interactive prompt.
    pub interactive: bool,
    /// Read the prompt from this file.
    pub file: Option<String>,
    /// How a complete response is printed.
    pub output: OutputFormat,
    /// Stream the response (on unless turned off).
    pub stream: bool,
    /// Turn streaming off.
    pub no_stream: bool,
}

/// Options of the BigModel command.
#[derive(Debug, Clone)]
pub struct BigmodelOpts {
    pub model: String,
    pub common: CommonOpts,
}

/// Options of the OpenAI command.
#[derive(Debug, Clone)]
pub struct OpenaiOpts {
    pub model: String,
    pub common: CommonOpts,
}

/// Options of the Anthropic command.
#[derive(Debug, Clone)]
pub struct AnthropicOpts {
    pub model: String,
    pub common: CommonOpts,
}

/// The provider command chosen on the command line.
#[derive(Debug, Clone)]
pub enum ProviderCommand {
    /// List the available providers.
    List,
    Bigmodel(BigmodelOpts),
    Openai(OpenaiOpts),
    Anthropic(AnthropicOpts),
}

impl CommonOpts {
    /// Whether the response is streamed: `--no-stream` wins over `--stream`.
    pub fn stream_enabled(&self) -> (r: bool)
        ensures
            r == (!self.no_stream && self.stream),
    {
        if self.no_stream {
            false
        } else {
            self.stream
        }
    }
}

/// Settings read from the environment for one provider.
#[derive(Debug, Clone)]
pub struct Config {
    pub api_key: Option<String>,
    pub model: Option<String>,
}

impl Config {
    /// The API key to use: the one given on the command line, else this configuration's.
    pub fn get_api_key(&self, cli_key: Option<&str>) -> (r: Option<String>)
        ensures
            match cli_key {
                Some(k) => r matches Some(v) && v@ == k@,
                None => opt_view(r) == opt_view(self.api_key),
            },
    {
        match cli_key {
            Some(key) => Some(key.to_string()),
            None => match &self.api_key {
                Some(k) => Some(k.clone()),
                None => None,
            },
        }
    }
}

/// The API key a provider command uses: the command's own, else the one from the
/// environment. `None` means there is none, which the command refuses.
pub fn resolve_api_key(opts: &CommonOpts, config: &Config) -> (r: Option<String>)
    ensures
        opt_view(r) == match opts.api_key {
            Some(k) => Some(k@),
            None => opt_view(config.api_key),
        },
{
    match &opts.api_key {
        Some(k) => Some(k.clone()),
        None => config.get_api_key(None),
    }
}

/// The upper-case form of a string as `str::to_uppercase` gives it (full Unicode case mapping).
pub uninterp spec fn uppercase_of(s: Seq<char>) -> Seq<char>;

/// Upper-cases a string with `str::to_uppercase`.
///
/// Claimed: the result depends on `s` alone (the Unicode case mapping does not
/// depend on locale or on anything outside the call), named `uppercase_of`.
#[verifier::external_body]
fn to_uppercase(s: &str) -> (r: String)
    ensures
        r@ == uppercase_of(s@),
{
    s.to_uppercase()
}

/// The names of the environment variables that hold a provider's settings.
pub struct EnvVarNames {
    pub api_key: String,
    pub model: String,
}

/// The environment variables for a provider whose name, upper-cased, is `upper`:
/// `<upper>_API_KEY` and `<upper>_MODEL`.
pub fn env_var_names_for(upper: &str) -> (r: EnvVarNames)
    ensures
        r.api_key@ == upper@ + "_API_KEY"@,
        r.model@ == upper@ + "_MODEL"@,
{
    let mut api_key = upper.to_string();
    api_key.append("_API_KEY");
    let mut model = upper.to_string();
    model.append("_MODEL");
    EnvVarNames { api_key, model }
}

/// The environment variables that hold the settings of the provider `provider`.
pub fn env_var_names(provider: &str) -> (r: EnvVarNames)
    ensures
        r.api_key@ == uppercase_of(provider@) + "_API_KEY"@,
        r.model@ == uppercase_of(provider@) + "_MODEL"@,
{
    let upper = to_uppercase(provider);
    env_var_names_for(upper.as_str())
}

/// The prompt sent for an input: a file's text as it is, standard input trimmed.
pub fn prompt_from_input(input: &str, from_stdin: bool) -> (r: String)
    ensures
        r@ == if from_stdin {
            trim(input@)
        } else {
            input@
        },
{
    if from_stdin {
        trim_str(input)
    } else {
        input.to_string()
    }
}

/// What a line typed at the interactive prompt asks for.
#[derive(Debug, Clone, PartialEq, Eq)]
pub enum ReplCommand {
    /// Nothing was typed: prompt again.
    Skip,
    /// `exit` or `quit`: leave.
    Exit,
    /// Send this prompt.
    Prompt(String),
}

/// How a typed line is read: trimmed; empty asks for nothing, `exit` and `quit`
/// end the session, anything else is a prompt.
pub open spec fn repl_command_of(line: Seq<char>) -> Option<Option<Seq<char>>> {
    let t = trim(line);
    if t.len() == 0 {
        None
    } else if t == "exit"@ || t == "quit"@ {
        Some(None)
    } else {
        Some(Some(t))
    }
}

/// Reads a line typed at the interactive prompt.
pub fn repl_command(line: &str) -> (r: ReplCommand)
    ensures
        match repl_command_of(line@) {
            None => r == ReplCommand::Skip,
            Some(None) => r == ReplCommand::Exit,
            Some(Some(p)) => r matches ReplCommand::Prompt(q) && q@ == p,
        },
{
    let t = trim_str(line);
    if t.as_str().unicode_len() == 0 {
        ReplCommand::Skip
    } else if is_exit_word(t.as_str()) {
        ReplCommand::Exit
    } else {
        ReplCommand::Prompt(t)
    }
}

/// Whether `s` is `exit` or `quit`.
fn is_exit_word(s: &str) -> (r: bool)
    ensures
        r == (s@ == "exit"@ || s@ == "quit"@),
{
    proof {
        reveal_strlit("exit");
        reveal_strlit("quit");
    }
    if s.unicode_len() != 4 {
        return false;
    }
    let a = s.get_char(0);
    let b = s.get_char(1);
    let c = s.get_char(2);
    let d = s.get_char(3);
    let r = (a == 'e' && b == 'x' && c == 'i' && d == 't') || (a == 'q' && b == 'u' && c == 'i'
        && d == 't');
    if r {
        assert(s@ =~= "exit"@ || s@ =~= "quit"@);
    }
    r
}

/// The OpenAI provider (not implemented: it only has a name).
#[derive(Debug, Clone, Copy)]
pub struct OpenaiProvider;

impl OpenaiProvider {
    pub fn new(_api_key: &str) -> (r: Self) {
        OpenaiProvider
    }

    pub fn name(&self) -> (r: &'static str)
        ensures
            r@ == "openai"@,
    {
        "openai"
    }
}

/// The Anthropic provider (not implemented: it only has a name).
#[derive(Debug, Clone, Copy)]
pub struct AnthropicProvider;

impl AnthropicProvider {
    pub fn new(_api_key: &str) -> (r: Self) {
        AnthropicProvider
    }

    pub fn name(&self) -> (r: &'static str)
        ensures
            r@ == "anthropic"@,
    {
        "anthropic"
    }
}

/// Where a provider command reads its prompt from.
#[derive(Debug, Clone, PartialEq, Eq)]
pub enum InputMode {
    /// Prompts typed at an interactive prompt.
    Interactive,
    /// The whole of this file.
    File(String),
    /// Standard input, piped.
    Pipe,
}

/// The input mode of a command: interactive when asked for, else the file when
/// one is given, else standard input.
pub fn input_mode(opts: &CommonOpts) -> (r: InputMode)
    ensures
        opts.interactive ==> r == InputMode::Interactive,
        !opts.interactive ==> match opts.file {
            Some(f) => r matches InputMode::File(g) && g@ == f@,
            None => r == InputMode::Pipe,
        },
{
    if opts.interactive {
        InputMode::Interactive
    } else {
        match &opts.file {
            Some(f) => InputMode::File(f.clone()),
            None => InputMode::Pipe,
        }
    }
}

/// The line that reports a streamed response's token counts on standard error.
pub open spec fn usage_report(u: ModelUsage) -> Seq<char> {
    "[Usage: "@ + decimal(u.input_tokens as nat) + " in, "@ + decimal(u.output_tokens as nat)
        + " out]"@
}

/// The token-count report of a streamed response.
pub fn usage_line(usage: &ModelUsage) -> (r: String)
    ensures
        r@ == usage_report(*usage),
{
    let mut r = String::from_str("[Usage: ");
    write_decimal(&mut r, usage.input_tokens);
    r.append(" in, ");
    write_decimal(&mut r, usage.output_tokens);
    r.append(" out]");
    r
}

} // verus!
