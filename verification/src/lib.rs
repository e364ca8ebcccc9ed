use vstd::prelude::*;

pub mod decoder;
pub mod pubkey;
pub mod subscribe;
pub mod supervisor;
pub mod worker;

verus! {

/// Number of consecutive connection-establishment failures after which
/// the run loop gives up and surfaces the fatal error.
pub const MAX_RECONNECTION_ATTEMPTS: u32 = 10;

/// Fixed delay, in milliseconds, observed before a reconnection attempt.
pub const RECONNECTION_DELAY_MS: u64 = 3000;

} // verus!
