//! Update commands, distribution metadata and account summaries for a
//! command-line coding assistant, with their behaviour stated as contracts.

pub mod account_list;
pub mod distribution;
pub mod text;
pub mod update_action;

use vstd::prelude::*;

verus! {

} // verus!
