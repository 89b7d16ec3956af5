//! The brake on candidate production.
//!
//! Verifying candidates is much slower than making them, so requests pile up
//! in memory. A worker therefore looks at the memory from time to time and
//! pauses while more than four fifths of it are in use. The caller reads
//! the two figures from the system and sleeps; the rule is here.

use vstd::prelude::*;

verus! {

/// How long a worker pauses before it looks at the memory again, in seconds.
pub const PRESSURE_PAUSE_SECS: u64 = 5;

/// What a worker does after a look at the memory.
#[derive(Debug, Clone, Copy, PartialEq, Eq, Structural)]
pub enum GovernorAction {
    /// The pressure is low enough: go on.
    Proceed,
    /// The pressure is too high: sleep for `seconds`, then read the memory
    /// figures again and ask again.
    PauseThenResample { seconds: u64 },
}

/// Whether `used_memory` is more than 0.8 of `total_memory`.
///
/// With no memory at all, any use is too much and no use is not.
pub open spec fn pressure_exceeds_limit(total_memory: nat, used_memory: nat) -> bool {
    10 * used_memory > 8 * total_memory
}

/// Decides from one sample of the memory figures whether a worker has to wait
/// for the pressure to fall.
pub fn wait_for_memory_pressure(total_memory: u64, used_memory: u64) -> (action: GovernorAction)
    ensures
        pressure_exceeds_limit(total_memory as nat, used_memory as nat) ==> action == (
        GovernorAction::PauseThenResample { seconds: PRESSURE_PAUSE_SECS }),
        !pressure_exceeds_limit(total_memory as nat, used_memory as nat) ==> action
            == GovernorAction::Proceed,
{
    let used: u128 = used_memory as u128;
    let total: u128 = total_memory as u128;
    if 10 * used > 8 * total {
        GovernorAction::PauseThenResample { seconds: PRESSURE_PAUSE_SECS }
    } else {
        GovernorAction::Proceed
    }
}

} // verus!
