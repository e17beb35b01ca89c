//! The conversation as rows of styled text.

use vstd::prelude::*;

pub mod command;
pub mod hits;
pub mod line;
pub mod message;
pub mod output;
pub mod plan;
pub mod status;
pub mod turn;
pub mod view;
pub mod wrap;

verus! {

} // verus!
