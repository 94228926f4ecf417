//! The host's notion of time, as far as the game reads it.

use vstd::prelude::*;

verus! {

/// What an operation learns from the host about the moment it runs in.
#[derive(Clone, Copy, Debug, PartialEq, Eq, Structural)]
pub struct Clock {
    /// A counter that only grows, one step per block.
    pub slot: u64,
    /// Seconds since the Unix epoch, as the host estimates them.
    pub unix_timestamp: i64,
}

} // verus!
