use vstd::prelude::*;

pub mod access_list;
pub mod login;
pub mod certificate;
pub mod proxy_host;
pub mod upstream;
pub mod user;
pub mod utils;

verus! {

} // verus!
