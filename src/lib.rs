//! A derivative-free parameter optimizer: checkpoint codec, search state,
//! round bookkeeping and the supervisor that restarts a failed worker pool.
//!
//! Real numbers travel through the library as the raw bit patterns of IEEE-754
//! doubles (`u64`); the arithmetic on them is done by the embedding program.
use vstd::prelude::*;

pub mod ieee;
pub mod words;
pub mod state;
pub mod codec;
pub mod search;
pub mod compass;
pub mod messages;
pub mod coordinator;
pub mod round;
pub mod daemon;
pub mod log;

verus! {

} // verus!
