//! Verified core of the Conduit terminal UI: the decisions, text rules and
//! geometry that the interactive application applies around its agents.
use vstd::prelude::*;

pub mod background;
pub mod status;
pub mod agent;
pub mod command;
pub mod dialogs;
pub mod events;
pub mod image;
pub mod json;
pub mod jsonl;
pub mod layout;
pub mod mcp;
pub mod mention;
pub mod opening;
pub mod output;
pub mod persistence;
pub mod pr;
pub mod prompt;
pub mod queue;
pub mod settings;
pub mod screen;
pub mod session;
pub mod sort;
pub mod tabs;
pub mod text;
pub mod tracker;
pub mod transcript;
pub mod workflow;

verus! {

} // verus!
