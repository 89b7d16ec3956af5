//! Exhaustive search over the unknown bytes of a partially known private key.
//!
//! The library enumerates the candidate keys, splits them among workers,
//! decides what a worker does with each candidate, and keeps the state of the
//! loop that verifies candidates against a balance oracle. Threads, timers and
//! the network stay with the caller: the library hands out the next action and
//! takes back what came of it.

pub mod counter;
pub mod assembler;
pub mod partition;
pub mod identity;
pub mod messages;
pub mod worker;
pub mod governor;
pub mod verification;
pub mod progress;
pub mod config;
