//! The agent pane as a state machine: what it keeps, what happens to it, and
//! what it asks the world around it to do.

use vstd::prelude::*;

pub mod clock;
pub mod config_picker;
pub mod connection;
pub mod conversation;
pub mod dispatch;
pub mod effect;
pub mod event;
pub mod failure;
pub mod kept;
pub mod mouse;
pub mod popup;
pub mod projection;
pub mod recovery;
pub mod requests;
pub mod slash;
pub mod start;
pub mod state;
pub mod terminal;
pub mod told;
pub mod used;

verus! {

} // verus!
