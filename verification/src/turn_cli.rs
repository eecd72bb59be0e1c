//! The decisions of the turn command-line tool: which prompt it runs and what
//! its built-in tool answers.
use vstd::prelude::*;
use vstd::string::StringExecFns;

use crate::text::{trim, trim_str};

verus! {

/// Why no prompt could be had.
#[derive(Debug, Clone, Copy, PartialEq, Eq, Structural)]
pub enum PromptError {
    /// No prompt argument, and standard input is a terminal.
    MissingPrompt,
    /// Standard input held only whitespace.
    EmptyStdin,
}

pub open spec fn prompt_error_message(e: PromptError) -> Seq<char> {
    match e {
        PromptError::MissingPrompt => "missing prompt: pass text arg or pipe stdin"@,
        PromptError::EmptyStdin => "stdin prompt is empty"@,
    }
}

impl PromptError {
    pub fn message(&self) -> (r: String)
        ensures
            r@ == prompt_error_message(*self),
    {
        match self {
            PromptError::MissingPrompt => String::from_str("missing prompt: pass text arg or pipe stdin"),
            PromptError::EmptyStdin => String::from_str("stdin prompt is empty"),
        }
    }
}

/// The prompt given as an argument, trimmed, if it holds more than whitespace.
pub fn prompt_from_argument(cli_prompt: Option<&str>) -> (r: Option<String>)
    ensures
        match cli_prompt {
            Some(p) => if trim(p@).len() > 0 {
                r matches Some(t) && t@ == trim(p@)
            } else {
                r is None
            },
            None => r is None,
        },
{
    match cli_prompt {
        Some(p) => {
            let t = trim_str(p);
            if t.as_str().unicode_len() > 0 {
                Some(t)
            } else {
                None
            }
        },
        None => None,
    }
}

/// The prompt read from standard input: trimmed, and refused where nothing is left.
pub fn prompt_from_stdin(buffer: &str) -> (r: Result<String, PromptError>)
    ensures
        trim(buffer@).len() > 0 ==> (r matches Ok(t) && t@ == trim(buffer@)),
        trim(buffer@).len() == 0 ==> r == Err::<String, PromptError>(PromptError::EmptyStdin),
{
    let t = trim_str(buffer);
    if t.as_str().unicode_len() > 0 {
        Ok(t)
    } else {
        Err(PromptError::EmptyStdin)
    }
}

/// What the built-in tool executor answers a call with: `echo` returns its
/// arguments; any other tool is refused.
pub open spec fn builtin_tool_result(tool_name: Seq<char>, arguments: Seq<char>) -> Result<Seq<char>, Seq<char>> {
    if tool_name == "echo"@ {
        Ok(arguments)
    } else {
        Err("unsupported tool '"@ + tool_name + "' in agent-turn-cli; built-in tools: echo"@)
    }
}

/// Runs a call with the built-in tools.
pub fn run_builtin_tool(tool_name: &str, arguments: String) -> (r: Result<String, String>)
    ensures
        match builtin_tool_result(tool_name@, arguments@) {
            Ok(a) => r matches Ok(o) && o@ == a,
            Err(m) => r matches Err(e) && e@ == m,
        },
{
    proof {
        reveal_strlit("echo");
    }
    let is_echo = tool_name.unicode_len() == 4 && tool_name.get_char(0) == 'e' && tool_name.get_char(
        1,
    ) == 'c' && tool_name.get_char(2) == 'h' && tool_name.get_char(3) == 'o';
    if is_echo {
        assert(tool_name@ =~= "echo"@);
        Ok(arguments)
    } else {
        let mut m = String::from_str("unsupported tool '");
        m.append(tool_name);
        m.append("' in agent-turn-cli; built-in tools: echo");
        Err(m)
    }
}

} // verus!
