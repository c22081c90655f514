//! The tuning constants of the economy, gathered in one place.
//!
//! Times are in nanoseconds, token amounts in the token's smallest unit.

use vstd::prelude::*;

verus! {

/// Keys a player owns right after signing in.
pub const STARTING_KEYS: u32 = 99;

/// Chests a player owns right after signing in.
pub const STARTING_CHESTS: u32 = 99;

/// Gift vouchers a player owns right after signing in.
pub const STARTING_GIFTS: u32 = 20;

/// The claim tier of a new player.
pub const STARTING_KEYS_PER_CLAIM: u32 = 1;

/// The highest claim tier.
pub const MAX_KEYS_PER_CLAIM: u32 = 4;

/// Time between two key claims before any upgrade: twenty minutes.
pub const COOLDOWN_BASE: u64 = 1_200_000_000_000;

/// What one upgrade takes off the cooldown: five minutes.
pub const UPGRADE_INCREMENT: u64 = 300_000_000_000;

/// The most that upgrades can take off the cooldown: fifteen minutes.
pub const MAX_TIME_TO_DECREASE: u64 = 900_000_000_000;

/// The claim tier rises each time the accumulated reduction passes a multiple
/// of this duration.
pub const TIER_BOUNDARY: u64 = 300_000_000_000;

/// Wood, iron and stone that one chest costs, each.
pub const CHEST_RESOURCE_COST: u32 = 50;

/// Keys that one chest costs when it is not paid in resources.
pub const CHEST_KEY_COST: u32 = 1;

/// Every draw is reduced to a percentage.
pub const DRAW_RANGE: u8 = 100;

/// Out of a hundred opened chests, this many carry an extra gift voucher.
pub const EXTRA_GIFT_CHANCE: u8 = 10;

/// The least token reward, in whole tokens.
pub const MIN_GIFT_AMOUNT: u128 = 10_000_000;

/// The greatest token reward, in whole tokens.
pub const MAX_GIFT_AMOUNT: u128 = 300_000_000;

/// A raw token draw is first reduced modulo this.
pub const GIFT_DRAW_MODULUS: u32 = 10_000_000;

/// Smallest units in one whole token: ten to the twenty-fourth.
pub const TOKEN_UNIT: u128 = 1_000_000_000_000_000_000_000_000;

} // verus!
