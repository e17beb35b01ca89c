//! Terminal agent: the decision logic behind the agent pane, its command line
//! and its usage reporting, stated and proved over mathematical models.

use vstd::prelude::*;

pub mod agents;
pub mod app;
pub mod bytes;
pub mod calendar;
pub mod chat;
pub mod cli;
pub mod commands;
pub mod delegate;
pub mod hooks;
pub mod json;
pub mod keyed;
pub mod models;
pub mod phrases;
pub mod sessions;
pub mod tab;
pub mod tab_actions;
pub mod text;
pub mod transcript;
pub mod usage;

verus! {

} // verus!
