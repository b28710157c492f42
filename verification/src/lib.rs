//! localcode's additions to the agent: the `update_plan` tool's reminder to
//! verify closed plans, and the model picker that switches the local model
//! through localcode's supervisor.
use vstd::prelude::*;

pub mod picker;
pub mod plan;
pub mod text;

verus! {

} // verus!
