//! Plain-text rendering of thread events for a terminal: answer text on
//! standard output, reasoning and notices on standard error.
use vstd::prelude::*;
use vstd::string::StringExecFns;

use crate::events::{ToolCallStatus, TurnStats, UiThreadEvent, UiThreadEventView};
use crate::text::{decimal, write_decimal};

verus! {

/// What the renderer remembers between events.
#[derive(Debug, Clone, Copy, PartialEq, Eq, Structural)]
pub struct UiRenderState {
    /// Some answer text has been written.
    pub printed_text: bool,
    /// The reasoning prefix has been written.
    pub reasoning_started: bool,
    /// The reasoning line is still open (no line break after it yet).
    pub reasoning_open: bool,
}

impl Default for UiRenderState {
    fn default() -> (r: Self)
        ensures
            r == (UiRenderState { printed_text: false, reasoning_started: false, reasoning_open: false }),
    {
        UiRenderState { printed_text: false, reasoning_started: false, reasoning_open: false }
    }
}

/// The name a status is shown by.
pub open spec fn status_name(s: ToolCallStatus) -> Seq<char> {
    match s {
        ToolCallStatus::Planned => "Planned"@,
        ToolCallStatus::Running => "Running"@,
        ToolCallStatus::Completed => "Completed"@,
        ToolCallStatus::Failed => "Failed"@,
    }
}

/// The line that reports the counts of a finished turn.
pub open spec fn stats_line(stats: TurnStats) -> Seq<char> {
    "[done] stats: tools="@ + decimal(stats.tool_calls_count as nat) + " input_tokens="@ + decimal(
        stats.total_input_tokens as nat,
    ) + " output_tokens="@ + decimal(stats.total_output_tokens as nat) + "\n"@
}

/// A rendering step: the next state, and the text for standard output and standard error.
pub struct Rendered {
    pub state: UiRenderState,
    pub stdout: Seq<char>,
    pub stderr: Seq<char>,
}

/// Closes an open reasoning line with a line break.
pub open spec fn close_reasoning(st: UiRenderState) -> Rendered {
    if st.reasoning_open {
        Rendered {
            state: UiRenderState { reasoning_open: false, ..st },
            stdout: seq![],
            stderr: "\n"@,
        }
    } else {
        Rendered { state: st, stdout: seq![], stderr: seq![] }
    }
}

/// Closes an open reasoning line, then writes `line` to standard error.
pub open spec fn notice(st: UiRenderState, line: Seq<char>) -> Rendered {
    let c = close_reasoning(st);
    Rendered { stderr: c.stderr + line, ..c }
}

/// How one thread event is rendered from state `st`.
pub open spec fn render_event(st: UiRenderState, ev: UiThreadEventView) -> Rendered {
    match ev {
        UiThreadEventView::MessageDelta { delta, .. } => {
            let c = close_reasoning(st);
            Rendered {
                state: UiRenderState { printed_text: true, ..c.state },
                stdout: (if st.reasoning_open {
                    "\n"@
                } else {
                    seq![]
                }) + delta,
                stderr: c.stderr,
            }
        },
        UiThreadEventView::ReasoningDelta { delta, .. } => Rendered {
            state: UiRenderState { reasoning_started: true, reasoning_open: true, ..st },
            stdout: seq![],
            stderr: (if st.reasoning_started {
                seq![]
            } else {
                "[reasoning] "@
            }) + delta,
        },
        UiThreadEventView::ToolCallRequested { call_id, tool_name, .. } => notice(
            st,
            "[tool] requested: "@ + tool_name + " ("@ + call_id + ")\n"@,
        ),
        UiThreadEventView::ToolCallProgress { call_id, status, .. } => notice(
            st,
            "[tool] progress: "@ + call_id + " -> "@ + status_name(status) + "\n"@,
        ),
        UiThreadEventView::ToolCallCompleted { result, .. } => notice(
            st,
            "[tool] completed: "@ + result.call_id + "\n"@,
        ),
        UiThreadEventView::Warning { message, .. } => notice(st, "[warning] "@ + message + "\n"@),
        UiThreadEventView::Error { message, .. } => notice(st, "[error] "@ + message + "\n"@),
        UiThreadEventView::Done { summary, stats, .. } => notice(
            st,
            (match summary {
                Some(s) => "[done] summary: "@ + s + "\n"@,
                None => seq![],
            }) + stats_line(stats),
        ),
    }
}

/// What is written when rendering ends: the reasoning line is closed and
/// answer text gets a final line break. JSON output writes nothing here.
pub open spec fn render_end(as_json: bool, st: UiRenderState) -> Rendered {
    if as_json {
        Rendered { state: st, stdout: seq![], stderr: seq![] }
    } else {
        let c = close_reasoning(st);
        Rendered {
            stdout: if c.state.printed_text {
                "\n"@
            } else {
                seq![]
            },
            ..c
        }
    }
}

/// Closes an open reasoning line; returns whether there was one.
pub fn close_reasoning_line(stderr: &mut String, state: &mut UiRenderState) -> (closed: bool)
    ensures
        closed == old(state).reasoning_open,
        *final(state) == close_reasoning(*old(state)).state,
        final(stderr)@ == old(stderr)@ + close_reasoning(*old(state)).stderr,
{
    if state.reasoning_open {
        stderr.append("\n");
        state.reasoning_open = false;
        true
    } else {
        assert(stderr@ =~= stderr@ + Seq::<char>::empty());
        false
    }
}

fn status_text(s: ToolCallStatus) -> (r: &'static str)
    ensures
        r@ == status_name(s),
{
    match s {
        ToolCallStatus::Planned => "Planned",
        ToolCallStatus::Running => "Running",
        ToolCallStatus::Completed => "Completed",
        ToolCallStatus::Failed => "Failed",
    }
}

fn write_notice(stderr: &mut String, state: &mut UiRenderState, line: &String)
    ensures
        *final(state) == notice(*old(state), line@).state,
        final(stderr)@ == old(stderr)@ + notice(*old(state), line@).stderr,
{
    close_reasoning_line(stderr, state);
    let ghost before = stderr@;
    stderr.append(line.as_str());
    assert(stderr@ =~= old(stderr)@ + notice(*old(state), line@).stderr);
}

/// Renders one thread event. With `as_json` the event is printed as a JSON
/// line by the caller, and nothing is rendered here.
pub fn handle_ui_event(
    event: &UiThreadEvent,
    as_json: bool,
    stdout: &mut String,
    stderr: &mut String,
    state: &mut UiRenderState,
)
    ensures
        as_json ==> *final(state) == *old(state),
        as_json ==> final(stdout)@ == old(stdout)@,
        as_json ==> final(stderr)@ == old(stderr)@,
        !as_json ==> *final(state) == render_event(*old(state), event@).state,
        !as_json ==> final(stdout)@ == old(stdout)@ + render_event(*old(state), event@).stdout,
        !as_json ==> final(stderr)@ == old(stderr)@ + render_event(*old(state), event@).stderr,
{
    if as_json {
        return ;
    }
    match event {
        UiThreadEvent::MessageDelta { delta, .. } => {
            if close_reasoning_line(stderr, state) {
                stdout.append("\n");
            }
            stdout.append(delta.as_str());
            state.printed_text = true;
            assert(stdout@ =~= old(stdout)@ + render_event(*old(state), event@).stdout);
        },
        UiThreadEvent::ReasoningDelta { delta, .. } => {
            if !state.reasoning_started {
                stderr.append("[reasoning] ");
                state.reasoning_started = true;
            }
            stderr.append(delta.as_str());
            state.reasoning_open = true;
            assert(stderr@ =~= old(stderr)@ + render_event(*old(state), event@).stderr);
            assert(stdout@ =~= old(stdout)@ + Seq::<char>::empty());
        },
        UiThreadEvent::ToolCallRequested { call_id, tool_name, .. } => {
            let mut line = String::from_str("[tool] requested: ");
            line.append(tool_name.as_str());
            line.append(" (");
            line.append(call_id.as_str());
            line.append(")\n");
            write_notice(stderr, state, &line);
            assert(stdout@ =~= old(stdout)@ + Seq::<char>::empty());
        },
        UiThreadEvent::ToolCallProgress { call_id, status, .. } => {
            let mut line = String::from_str("[tool] progress: ");
            line.append(call_id.as_str());
            line.append(" -> ");
            line.append(status_text(*status));
            line.append("\n");
            write_notice(stderr, state, &line);
            assert(stdout@ =~= old(stdout)@ + Seq::<char>::empty());
        },
        UiThreadEvent::ToolCallCompleted { result, .. } => {
            let mut line = String::from_str("[tool] completed: ");
            line.append(result.call_id.as_str());
            line.append("\n");
            write_notice(stderr, state, &line);
            assert(stdout@ =~= old(stdout)@ + Seq::<char>::empty());
        },
        UiThreadEvent::Warning { message, .. } => {
            let mut line = String::from_str("[warning] ");
            line.append(message.as_str());
            line.append("\n");
            write_notice(stderr, state, &line);
            assert(stdout@ =~= old(stdout)@ + Seq::<char>::empty());
        },
        UiThreadEvent::Error { message, .. } => {
            let mut line = String::from_str("[error] ");
            line.append(message.as_str());
            line.append("\n");
            write_notice(stderr, state, &line);
            assert(stdout@ =~= old(stdout)@ + Seq::<char>::empty());
        },
        UiThreadEvent::Done { summary, stats, .. } => {
            let mut line = String::new();
            match summary {
                Some(s) => {
                    line.append("[done] summary: ");
                    line.append(s.as_str());
                    line.append("\n");
                },
                None => {},
            }
            let ghost head = line@;
            line.append("[done] stats: tools=");
            write_decimal(&mut line, stats.tool_calls_count as u64);
            line.append(" input_tokens=");
            write_decimal(&mut line, stats.total_input_tokens);
            line.append(" output_tokens=");
            write_decimal(&mut line, stats.total_output_tokens);
            line.append("\n");
            assert(line@ =~= head + stats_line(*stats));
            write_notice(stderr, state, &line);
            assert(stdout@ =~= old(stdout)@ + Seq::<char>::empty());
        },
    }
}

/// Ends rendering: closes the reasoning line and ends answer text with a line break.
pub fn finalize_ui_render(
    as_json: bool,
    stdout: &mut String,
    stderr: &mut String,
    state: &mut UiRenderState,
)
    ensures
        *final(state) == render_end(as_json, *old(state)).state,
        final(stdout)@ == old(stdout)@ + render_end(as_json, *old(state)).stdout,
        final(stderr)@ == old(stderr)@ + render_end(as_json, *old(state)).stderr,
{
    if as_json {
        assert(stdout@ =~= stdout@ + Seq::<char>::empty());
        assert(stderr@ =~= stderr@ + Seq::<char>::empty());
        return ;
    }
    close_reasoning_line(stderr, state);
    if state.printed_text {
        stdout.append("\n");
    } else {
        assert(stdout@ =~= stdout@ + Seq::<char>::empty());
    }
}

/// A tool's progress is written to standard error as one line that names the
/// call and the status by its own name (`Planned`, `Running`, `Completed`,
/// `Failed`), after closing an open reasoning line; nothing goes to standard
/// output, and different statuses give different lines.
pub proof fn lemma_progress_line_names_status(
    st: UiRenderState,
    turn_id: Seq<char>,
    call_id: Seq<char>,
    status: ToolCallStatus,
    other: ToolCallStatus,
)
    ensures
        ({
            let r = render_event(st, UiThreadEventView::ToolCallProgress { turn_id, call_id, status });
            let c = close_reasoning(st).stderr;
            &&& r.stdout == Seq::<char>::empty()
            &&& status == ToolCallStatus::Planned ==> r.stderr == c + ("[tool] progress: "@ + call_id
                + " -> "@ + "Planned"@ + "\n"@)
            &&& status == ToolCallStatus::Running ==> r.stderr == c + ("[tool] progress: "@ + call_id
                + " -> "@ + "Running"@ + "\n"@)
            &&& status == ToolCallStatus::Completed ==> r.stderr == c + ("[tool] progress: "@ + call_id
                + " -> "@ + "Completed"@ + "\n"@)
            &&& status == ToolCallStatus::Failed ==> r.stderr == c + ("[tool] progress: "@ + call_id
                + " -> "@ + "Failed"@ + "\n"@)
            &&& status != other ==> r.stderr != render_event(
                st,
                UiThreadEventView::ToolCallProgress { turn_id, call_id, status: other },
            ).stderr
        }),
{
    reveal_strlit("Planned");
    reveal_strlit("Running");
    reveal_strlit("Completed");
    reveal_strlit("Failed");
    let head = close_reasoning(st).stderr + ("[tool] progress: "@ + call_id + " -> "@);
    let a = render_event(st, UiThreadEventView::ToolCallProgress { turn_id, call_id, status }).stderr;
    let b = render_event(st, UiThreadEventView::ToolCallProgress { turn_id, call_id, status: other }).stderr;
    if status != other {
        assert(a =~= head + status_name(status) + "\n"@);
        assert(b =~= head + status_name(other) + "\n"@);
        assert(a[head.len() as int] == status_name(status)[0]);
        assert(b[head.len() as int] == status_name(other)[0]);
        assert(status_name(status)[0] != status_name(other)[0]);
    }
}

/// Answer text goes to standard output and reasoning to standard error, each
/// delta written as it came: an answer delta ends standard output and writes
/// nothing to standard error but the close of an open reasoning line; a
/// reasoning delta ends standard error and writes nothing to standard output.
/// The end of a turn writes its counts in the order tools, input tokens,
/// output tokens, after its summary if it has one.
pub proof fn lemma_render_streams(st: UiRenderState, turn_id: Seq<char>, delta: Seq<char>, summary: Option<Seq<char>>, stats: TurnStats)
    ensures
        ({
            let m = render_event(st, UiThreadEventView::MessageDelta { turn_id, delta });
            &&& m.stdout.len() >= delta.len()
            &&& m.stdout.subrange(m.stdout.len() - delta.len(), m.stdout.len() as int) == delta
            &&& m.stderr == close_reasoning(st).stderr
            &&& m.state.printed_text
            &&& !m.state.reasoning_open
        }),
        ({
            let r = render_event(st, UiThreadEventView::ReasoningDelta { turn_id, delta });
            &&& r.stdout == Seq::<char>::empty()
            &&& r.stderr.len() >= delta.len()
            &&& r.stderr.subrange(r.stderr.len() - delta.len(), r.stderr.len() as int) == delta
            &&& r.state.reasoning_open
        }),
        ({
            let d = render_event(st, UiThreadEventView::Done { turn_id, summary, stats });
            let counts = "[done] stats: tools="@ + decimal(stats.tool_calls_count as nat)
                + " input_tokens="@ + decimal(stats.total_input_tokens as nat) + " output_tokens="@
                + decimal(stats.total_output_tokens as nat) + "\n"@;
            &&& d.stdout == Seq::<char>::empty()
            &&& summary is None ==> d.stderr == close_reasoning(st).stderr + counts
            &&& summary matches Some(text) ==> d.stderr == close_reasoning(st).stderr + (
            "[done] summary: "@ + text + "\n"@ + counts)
        }),
{
    let m = render_event(st, UiThreadEventView::MessageDelta { turn_id, delta });
    let pre: Seq<char> = if st.reasoning_open { "\n"@ } else { seq![] };
    assert(m.stdout == pre + delta);
    assert(m.stdout.subrange(m.stdout.len() - delta.len(), m.stdout.len() as int) =~= delta);
    let r = render_event(st, UiThreadEventView::ReasoningDelta { turn_id, delta });
    let rp: Seq<char> = if st.reasoning_started { seq![] } else { "[reasoning] "@ };
    assert(r.stderr == rp + delta);
    assert(r.stderr.subrange(r.stderr.len() - delta.len(), r.stderr.len() as int) =~= delta);
    let d = render_event(st, UiThreadEventView::Done { turn_id, summary, stats });
    if summary is None {
        assert(d.stderr =~= close_reasoning(st).stderr + stats_line(stats));
    }
}

} // verus!
