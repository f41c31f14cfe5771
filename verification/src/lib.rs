//! A time-locked token escrow.
//!
//! A depositor locks a quantity of a single accepted fungible token for a
//! fixed duration.  After the lock matures, the depositor (and only the
//! depositor) may reclaim the principal together with a fixed-rate interest
//! bonus.  Every mutating operation runs under a persisted reentrancy guard.

use vstd::prelude::*;

pub mod escrow;
pub mod interest;
pub mod laws;
pub mod types;

verus! {

/// Lock duration added to the deposit time to obtain the unlock time.
pub const LOCK_PERIOD: u64 = 605227;

} // verus!
