//! The commands of the program.

use vstd::prelude::*;

pub mod info;
pub mod locale;
pub mod output;
pub mod publish;
pub mod request;

verus! {

} // verus!
