use vstd::prelude::*;

pub mod endpoints;
pub mod middleware;
pub mod status;

verus! {

} // verus!
