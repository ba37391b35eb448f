use vstd::prelude::*;

pub mod attendance;
pub mod commands;
pub mod config;
pub mod daemon;
pub mod employees;
pub mod prints;
pub mod response;
pub mod session;
pub mod text;

verus! {

} // verus!
