//! A verified core for a conversational password generator: a per-user,
//! time-bounded configuration state machine plus an unbiased secure
//! password sampler.

pub mod engine;
pub mod generator;
pub mod parse;
pub mod session;
mod strconv;

use vstd::prelude::*;

verus! {

/// Number of seconds a configuration session stays alive after it is created.
pub const SESSION_TTL_SECS: u64 = 300;

/// Number of seconds between two runs of the session sweeper.
pub const SWEEP_INTERVAL_SECS: u64 = 600;

/// Password length used by the quick-generate command.
pub const QUICK_LENGTH: u8 = 16;

} // verus!
