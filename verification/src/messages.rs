//! The messages that workers and timers send to the verification loop.

use vstd::prelude::*;

verus! {

/// Asks the verification loop to look up the balance of `address` at the node
/// `full_node`. `private_key` is the candidate that `address` was derived
/// from; it is reported if the address holds funds.
#[derive(Debug, Clone, PartialEq, Eq)]
pub struct CheckBalance {
    pub private_key: Vec<u8>,
    pub address: Vec<u8>,
    pub full_node: String,
}

/// Asks the verification loop to report its progress. Sent by a timer.
#[derive(Debug, Clone, Copy, PartialEq, Eq, Structural)]
pub struct Tick;

/// Tells the verification loop that one more candidate has been dealt with.
#[derive(Debug, Clone, Copy, PartialEq, Eq, Structural)]
pub struct Count;

} // verus!
