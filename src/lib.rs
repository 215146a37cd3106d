use vstd::prelude::*;

pub mod config;
pub mod install_thread;
pub mod resolve;
pub mod tasks;
pub mod text;
pub mod template;

verus! {

} // verus!
