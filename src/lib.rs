//! Timed purchase engine: clock reconciliation, a countdown scheduler,
//! an anti-automation token encoder and the order-attempt state machine.
use vstd::prelude::*;

pub mod account;
pub mod clock;
pub mod countdown;
pub mod engine;
pub mod project;
pub mod registry;
pub mod storage;
pub mod text;
pub mod token;

verus! {

} // verus!
