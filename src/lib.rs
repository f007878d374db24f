use vstd::prelude::*;

pub mod calendar;
pub mod cells;
pub mod connection;
pub mod discover;
pub mod schema;
pub mod stats;
pub mod transform;
pub mod upload;
pub mod preflight;

verus! {

} // verus!
