//! Why an operation was refused.

use vstd::prelude::*;

verus! {

/// The reason an operation failed. A failed operation changes nothing.
#[derive(Clone, Copy, Debug, PartialEq, Eq, Structural)]
pub enum GameError {
    /// The caller has no player record.
    NotFound,
    /// The claim gate has not passed yet.
    TooEarly,
    /// The player cannot pay what the operation costs.
    InsufficientResources,
    /// The player stands on the highest tier with the cooldown at its floor.
    MaxTierReached,
    /// The player has no gift voucher to swap.
    NoGiftsAvailable,
    /// The balance query did not return a balance.
    ExternalCallFailed,
    /// The result would not fit the record's integer fields.
    Overflow,
}

} // verus!
