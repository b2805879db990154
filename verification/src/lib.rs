use vstd::prelude::*;

pub mod text;
pub mod api;
pub mod config_store;
pub mod manager;
pub mod model;
pub mod results;
pub mod scripting;
pub mod time;

verus! {

} // verus!
