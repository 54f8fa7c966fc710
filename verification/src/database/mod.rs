use vstd::prelude::*;

pub mod config;
pub mod models;
pub mod repos;

verus! {

} // verus!
