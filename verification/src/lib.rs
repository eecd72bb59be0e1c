//! The ArgusX agent tools: the turn engine (a reducer from events to steps),
//! the data it exchanges with models and tools, the BigModel chat mapping,
//! terminal rendering, settings, Git access control, the command-line LLM
//! clients' decisions, and the desktop application's records.
use vstd::prelude::*;

pub mod dup;
pub mod text;

pub mod error;
pub mod model;
pub mod transcript;
pub mod events;
pub mod runtime_event;
pub mod effect;
pub mod state;
pub mod transition;
pub mod turn_spec;
pub mod reducer;
pub mod turn_laws;
pub mod testing;

pub mod bigmodel;
pub mod render;
pub mod turn_cli;
pub mod registry;

pub mod settings;
pub mod git;
pub mod llm_output;
pub mod llm_cli;
pub mod prompt_lab;
pub mod desktop;

verus! {

} // verus!
