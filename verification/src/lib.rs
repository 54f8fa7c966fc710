//! Core logic of a reverse-proxy manager: request validation, pagination,
//! the assembly of proxy hosts from their stored rows, the partial-update
//! rules of the REST API, configuration defaults, authorization decisions,
//! and the pure parts of the DNS-01 certificate flow.
use vstd::prelude::*;

pub mod api;
pub mod cert;
pub mod config;
pub mod database;
pub mod jwt;
pub mod outside;
pub mod text;

verus! {

} // verus!
