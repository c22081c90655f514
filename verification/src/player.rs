//! The player record and the operations that change it.
//!
//! [`PlayerState`] is the record as mathematics sees it: every field an
//! unbounded integer. The rules of the game are spec functions on it. A
//! [`Player`] is the record as it is stored; each of its methods performs the
//! rule of the same name, and refuses with [`GameError::Overflow`] where the
//! rule's result would not fit the stored fields.

use vstd::prelude::*;

use crate::config::{
    CHEST_KEY_COST, CHEST_RESOURCE_COST, COOLDOWN_BASE, MAX_KEYS_PER_CLAIM, MAX_TIME_TO_DECREASE,
    STARTING_CHESTS, STARTING_GIFTS, STARTING_KEYS, STARTING_KEYS_PER_CLAIM, TIER_BOUNDARY,
    UPGRADE_INCREMENT,
};
use crate::error::GameError;
use crate::rewards::{
    chest_reward_for, gift_payout, payout_for, sample_chest, ChestContent, ChestReward, Payout,
};
use crate::text::{chest_summary, describe_chest};

verus! {

/// One participant's durable state.
#[derive(Clone, Copy, Debug, PartialEq, Eq, Structural)]
pub struct Player {
    pub keys: u32,
    pub keys_per_claim: u32,
    pub chests: u32,
    pub stone: u32,
    pub iron: u32,
    pub wood: u32,
    pub gift: u32,
    pub time_to_next_key_claimable: u64,
    pub time_to_decrease: u64,
    pub token_rewarded: u128,
    pub last_token_rewarded: u128,
    pub player_hearth: u64,
    pub player_defense: u64,
    pub player_attack: u64,
    pub player_luck: u64,
    pub player_energy: u64,
    pub player_crit: u64,
    pub player_level: u64,
    pub castle_level: u64,
    pub castle_hearth: u64,
    pub castle_defense: u64,
    pub castle_attack: u64,
}

/// A player record over the integers.
pub struct PlayerState {
    pub keys: int,
    pub keys_per_claim: int,
    pub chests: int,
    pub stone: int,
    pub iron: int,
    pub wood: int,
    pub gift: int,
    pub time_to_next_key_claimable: int,
    pub time_to_decrease: int,
    pub token_rewarded: int,
    pub last_token_rewarded: int,
    pub player_hearth: int,
    pub player_defense: int,
    pub player_attack: int,
    pub player_luck: int,
    pub player_energy: int,
    pub player_crit: int,
    pub player_level: int,
    pub castle_level: int,
    pub castle_hearth: int,
    pub castle_defense: int,
    pub castle_attack: int,
}

impl PlayerState {
    /// The record of a player who signs in at `now`.
    pub open spec fn initial(now: int) -> PlayerState {
        PlayerState {
            keys: STARTING_KEYS as int,
            keys_per_claim: STARTING_KEYS_PER_CLAIM as int,
            chests: STARTING_CHESTS as int,
            stone: 0,
            iron: 0,
            wood: 0,
            gift: STARTING_GIFTS as int,
            time_to_next_key_claimable: now,
            time_to_decrease: 0,
            token_rewarded: 0,
            last_token_rewarded: 0,
            player_hearth: 100,
            player_defense: 10,
            player_attack: 15,
            player_luck: 1,
            player_energy: 10,
            player_crit: 5,
            player_level: 1,
            castle_level: 1,
            castle_hearth: 10,
            castle_defense: 1,
            castle_attack: 2,
        }
    }

    /// No consumable has gone below zero.
    pub open spec fn resources_non_negative(self) -> bool {
        &&& self.keys >= 0
        &&& self.chests >= 0
        &&& self.wood >= 0
        &&& self.iron >= 0
        &&& self.stone >= 0
        &&& self.gift >= 0
    }

    /// The claim tier lies between one and the highest tier, and the
    /// accumulated cooldown reduction between zero and its ceiling.
    pub open spec fn wf(self) -> bool {
        &&& 1 <= self.keys_per_claim <= MAX_KEYS_PER_CLAIM
        &&& 0 <= self.time_to_decrease <= MAX_TIME_TO_DECREASE
    }

    /// Every field has a value that its stored counterpart can hold.
    pub open spec fn fits(self) -> bool {
        &&& 0 <= self.keys <= u32::MAX
        &&& 0 <= self.keys_per_claim <= u32::MAX
        &&& 0 <= self.chests <= u32::MAX
        &&& 0 <= self.stone <= u32::MAX
        &&& 0 <= self.iron <= u32::MAX
        &&& 0 <= self.wood <= u32::MAX
        &&& 0 <= self.gift <= u32::MAX
        &&& 0 <= self.time_to_next_key_claimable <= u64::MAX
        &&& 0 <= self.time_to_decrease <= u64::MAX
        &&& 0 <= self.token_rewarded <= u128::MAX
        &&& 0 <= self.last_token_rewarded <= u128::MAX
        &&& 0 <= self.player_hearth <= u64::MAX
        &&& 0 <= self.player_defense <= u64::MAX
        &&& 0 <= self.player_attack <= u64::MAX
        &&& 0 <= self.player_luck <= u64::MAX
        &&& 0 <= self.player_energy <= u64::MAX
        &&& 0 <= self.player_crit <= u64::MAX
        &&& 0 <= self.player_level <= u64::MAX
        &&& 0 <= self.castle_level <= u64::MAX
        &&& 0 <= self.castle_hearth <= u64::MAX
        &&& 0 <= self.castle_defense <= u64::MAX
        &&& 0 <= self.castle_attack <= u64::MAX
    }

    /// Claiming a key: allowed once the claim gate lies before `now`. The
    /// player gains one key, and the next claim has to wait one cooldown from
    /// `now`: a cooldown is the base less what upgrades have taken off.
    pub open spec fn claim_key(self, now: int) -> Result<PlayerState, GameError> {
        if now > self.time_to_next_key_claimable {
            Ok(
                PlayerState {
                    keys: self.keys + 1,
                    time_to_next_key_claimable: now + COOLDOWN_BASE - self.time_to_decrease,
                    ..self
                },
            )
        } else {
            Err(GameError::TooEarly)
        }
    }

    /// The player holds the wood, iron and stone that a chest costs.
    pub open spec fn affords_chest_in_resources(self) -> bool {
        &&& self.wood >= CHEST_RESOURCE_COST
        &&& self.stone >= CHEST_RESOURCE_COST
        &&& self.iron >= CHEST_RESOURCE_COST
    }

    /// Buying a chest: paid in resources where the player holds enough of
    /// all three, else with a key, else refused.
    pub open spec fn exchange_chest(self) -> Result<PlayerState, GameError> {
        if self.affords_chest_in_resources() {
            Ok(
                PlayerState {
                    chests: self.chests + 1,
                    wood: self.wood - CHEST_RESOURCE_COST,
                    stone: self.stone - CHEST_RESOURCE_COST,
                    iron: self.iron - CHEST_RESOURCE_COST,
                    ..self
                },
            )
        } else if self.keys >= CHEST_KEY_COST {
            Ok(PlayerState { chests: self.chests + 1, keys: self.keys - CHEST_KEY_COST, ..self })
        } else {
            Err(GameError::InsufficientResources)
        }
    }

    /// The record with a chest's reward added to it.
    pub open spec fn grant(self, reward: ChestReward) -> PlayerState {
        let extra: int = if reward.extra_gift {
            1
        } else {
            0
        };
        match reward.content {
            ChestContent::Wood => PlayerState {
                wood: self.wood + reward.amount,
                gift: self.gift + extra,
                ..self
            },
            ChestContent::Iron => PlayerState {
                iron: self.iron + reward.amount,
                gift: self.gift + extra,
                ..self
            },
            ChestContent::Stone => PlayerState {
                stone: self.stone + reward.amount,
                gift: self.gift + extra,
                ..self
            },
            ChestContent::Gift => PlayerState {
                gift: self.gift + reward.amount + extra,
                ..self
            },
        }
    }

    /// Opening a chest: costs one key and one chest, and grants what the seed
    /// decides.
    pub open spec fn open_chest(self, seed: Seq<u8>) -> Result<PlayerState, GameError> {
        if self.keys > 0 && self.chests > 0 {
            Ok(
                PlayerState { keys: self.keys - 1, chests: self.chests - 1, ..self }.grant(
                    chest_reward_for(seed),
                ),
            )
        } else {
            Err(GameError::InsufficientResources)
        }
    }

    /// Keys that the next upgrade costs: twice the claim tier.
    pub open spec fn upgrade_cost(self) -> int {
        2 * self.keys_per_claim
    }

    /// The accumulated cooldown reduction after one more upgrade: an
    /// increment more, but never above the ceiling.
    pub open spec fn reduced_further(self) -> int {
        if self.time_to_decrease + UPGRADE_INCREMENT <= MAX_TIME_TO_DECREASE {
            self.time_to_decrease + UPGRADE_INCREMENT
        } else {
            MAX_TIME_TO_DECREASE as int
        }
    }

    /// Upgrading: refused where the player cannot pay, and where the highest
    /// tier stands with the reduction at its ceiling. Otherwise it takes the
    /// cost in keys, adds to the reduction, and raises the tier by one where
    /// the reduction has passed a tier boundary and the tier is not the
    /// highest.
    pub open spec fn upgrade(self) -> Result<PlayerState, GameError> {
        if self.keys < self.upgrade_cost() {
            Err(GameError::InsufficientResources)
        } else if self.keys_per_claim >= MAX_KEYS_PER_CLAIM && self.time_to_decrease
            >= MAX_TIME_TO_DECREASE {
            Err(GameError::MaxTierReached)
        } else {
            let reduced = self.reduced_further();
            let boundary = TIER_BOUNDARY as int;
            let crossed = reduced / boundary > self.time_to_decrease / boundary;
            Ok(
                PlayerState {
                    keys: self.keys - self.upgrade_cost(),
                    time_to_decrease: reduced,
                    keys_per_claim: if crossed && self.keys_per_claim < MAX_KEYS_PER_CLAIM {
                        self.keys_per_claim + 1
                    } else {
                        self.keys_per_claim
                    },
                    ..self
                },
            )
        }
    }

    /// The record with a payout booked: keys are added; tokens are added to
    /// the total rewarded and noted as the latest reward.
    pub open spec fn credit(self, payout: Payout) -> PlayerState {
        match payout {
            Payout::Keys(n) => PlayerState { keys: self.keys + n, ..self },
            Payout::Tokens(amount) => PlayerState {
                token_rewarded: self.token_rewarded + amount,
                last_token_rewarded: amount as int,
                ..self
            },
        }
    }

    /// Swapping a gift voucher: refused without a voucher. Otherwise it takes
    /// one voucher and books what the seed and the treasury's balance decide.
    pub open spec fn redeem_gift(self, balance: u128, seed: Seq<u8>) -> Result<
        PlayerState,
        GameError,
    > {
        if self.gift > 0 {
            Ok(PlayerState { gift: self.gift - 1, ..self }.credit(payout_for(balance, seed)))
        } else {
            Err(GameError::NoGiftsAvailable)
        }
    }
}

/// What an operation does once machine limits are taken into account: the
/// rule's outcome, but for a result that does not fit, which is refused.
pub open spec fn within_limits(outcome: Result<PlayerState, GameError>) -> Result<
    PlayerState,
    GameError,
> {
    match outcome {
        Ok(s) => if s.fits() {
            Ok(s)
        } else {
            Err(GameError::Overflow)
        },
        Err(e) => Err(e),
    }
}

/// The record went from `before` to `after`, with `outcome`, as the rule's
/// outcome within machine limits demands: on success the record is the rule's
/// result, on failure it is unchanged and the error is the rule's.
pub open spec fn performed(
    before: Player,
    after: Player,
    outcome: Result<(), GameError>,
    rule: Result<PlayerState, GameError>,
) -> bool {
    match within_limits(rule) {
        Ok(s) => outcome == Ok::<(), GameError>(()) && after@ == s,
        Err(e) => outcome == Err::<(), GameError>(e) && after == before,
    }
}

impl View for Player {
    type V = PlayerState;

    open spec fn view(&self) -> PlayerState {
        PlayerState {
            keys: self.keys as int,
            keys_per_claim: self.keys_per_claim as int,
            chests: self.chests as int,
            stone: self.stone as int,
            iron: self.iron as int,
            wood: self.wood as int,
            gift: self.gift as int,
            time_to_next_key_claimable: self.time_to_next_key_claimable as int,
            time_to_decrease: self.time_to_decrease as int,
            token_rewarded: self.token_rewarded as int,
            last_token_rewarded: self.last_token_rewarded as int,
            player_hearth: self.player_hearth as int,
            player_defense: self.player_defense as int,
            player_attack: self.player_attack as int,
            player_luck: self.player_luck as int,
            player_energy: self.player_energy as int,
            player_crit: self.player_crit as int,
            player_level: self.player_level as int,
            castle_level: self.castle_level as int,
            castle_hearth: self.castle_hearth as int,
            castle_defense: self.castle_defense as int,
            castle_attack: self.castle_attack as int,
        }
    }
}

impl Player {
    /// The record is well formed: see [`PlayerState::wf`].
    pub open spec fn wf(&self) -> bool {
        self@.wf()
    }

    /// A new player's record, with the claim gate at `current_time`.
    pub fn new(current_time: u64) -> (player: Player)
        ensures
            player@ == PlayerState::initial(current_time as int),
            player.wf(),
    {
        Player {
            keys: STARTING_KEYS,
            keys_per_claim: STARTING_KEYS_PER_CLAIM,
            chests: STARTING_CHESTS,
            stone: 0,
            iron: 0,
            wood: 0,
            gift: STARTING_GIFTS,
            time_to_next_key_claimable: current_time,
            time_to_decrease: 0,
            token_rewarded: 0,
            last_token_rewarded: 0,
            player_hearth: 100,
            player_defense: 10,
            player_attack: 15,
            player_luck: 1,
            player_energy: 10,
            player_crit: 5,
            player_level: 1,
            castle_level: 1,
            castle_hearth: 10,
            castle_defense: 1,
            castle_attack: 2,
        }
    }

    /// Whether the record is well formed.
    pub fn is_wf(&self) -> (ok: bool)
        ensures
            ok == self.wf(),
    {
        1 <= self.keys_per_claim && self.keys_per_claim <= MAX_KEYS_PER_CLAIM
            && self.time_to_decrease <= MAX_TIME_TO_DECREASE
    }

    /// Claims a key at `current_time`.
    pub fn claim_key(&mut self, current_time: u64) -> (outcome: Result<(), GameError>)
        requires
            old(self).wf(),
        ensures
            performed(
                *old(self),
                *final(self),
                outcome,
                old(self)@.claim_key(current_time as int),
            ),
            final(self).wf(),
    {
        if current_time > self.time_to_next_key_claimable {
            let cooldown: u64 = COOLDOWN_BASE - self.time_to_decrease;
            if self.keys == u32::MAX || current_time > u64::MAX - cooldown {
                return Err(GameError::Overflow);
            }
            self.keys = self.keys + 1;
            self.time_to_next_key_claimable = current_time + cooldown;
            Ok(())
        } else {
            Err(GameError::TooEarly)
        }
    }

    /// Buys a chest, with resources where the player can, else with a key.
    pub fn exchange_chest(&mut self) -> (outcome: Result<(), GameError>)
        requires
            old(self).wf(),
        ensures
            performed(*old(self), *final(self), outcome, old(self)@.exchange_chest()),
            final(self).wf(),
    {
        if self.wood >= CHEST_RESOURCE_COST && self.stone >= CHEST_RESOURCE_COST && self.iron
            >= CHEST_RESOURCE_COST {
            if self.chests == u32::MAX {
                return Err(GameError::Overflow);
            }
            self.chests = self.chests + 1;
            self.wood = self.wood - CHEST_RESOURCE_COST;
            self.stone = self.stone - CHEST_RESOURCE_COST;
            self.iron = self.iron - CHEST_RESOURCE_COST;
            Ok(())
        } else if self.keys >= CHEST_KEY_COST {
            if self.chests == u32::MAX {
                return Err(GameError::Overflow);
            }
            self.chests = self.chests + 1;
            self.keys = self.keys - CHEST_KEY_COST;
            Ok(())
        } else {
            Err(GameError::InsufficientResources)
        }
    }

    /// Opens a chest and reports what it granted.
    pub fn open_chest(&mut self, seed: &[u8; 32]) -> (outcome: Result<String, GameError>)
        requires
            old(self).wf(),
        ensures
            match within_limits(old(self)@.open_chest(seed@)) {
                Ok(s) => outcome is Ok && outcome->Ok_0@ == chest_summary(chest_reward_for(seed@))
                    && final(self)@ == s,
                Err(e) => outcome == Err::<String, GameError>(e) && *final(self) == *old(self),
            },
            final(self).wf(),
    {
        if self.keys > 0 && self.chests > 0 {
            let reward = sample_chest(seed);
            let extra: u32 = if reward.extra_gift {
                1
            } else {
                0
            };
            let mut opened = *self;
            opened.keys = opened.keys - 1;
            opened.chests = opened.chests - 1;
            match reward.content {
                ChestContent::Wood => {
                    if opened.wood > u32::MAX - reward.amount || opened.gift > u32::MAX - extra {
                        return Err(GameError::Overflow);
                    }
                    opened.wood = opened.wood + reward.amount;
                    opened.gift = opened.gift + extra;
                },
                ChestContent::Iron => {
                    if opened.iron > u32::MAX - reward.amount || opened.gift > u32::MAX - extra {
                        return Err(GameError::Overflow);
                    }
                    opened.iron = opened.iron + reward.amount;
                    opened.gift = opened.gift + extra;
                },
                ChestContent::Stone => {
                    if opened.stone > u32::MAX - reward.amount || opened.gift > u32::MAX - extra {
                        return Err(GameError::Overflow);
                    }
                    opened.stone = opened.stone + reward.amount;
                    opened.gift = opened.gift + extra;
                },
                ChestContent::Gift => {
                    if reward.amount > u32::MAX - extra || opened.gift > u32::MAX - (reward.amount
                        + extra) {
                        return Err(GameError::Overflow);
                    }
                    opened.gift = opened.gift + (reward.amount + extra);
                },
            }
            *self = opened;
            Ok(describe_chest(&reward))
        } else {
            Err(GameError::InsufficientResources)
        }
    }

    /// Upgrades the claim tier.
    pub fn upgrade(&mut self) -> (outcome: Result<(), GameError>)
        requires
            old(self).wf(),
        ensures
            performed(*old(self), *final(self), outcome, old(self)@.upgrade()),
            outcome != Err::<(), GameError>(GameError::Overflow),
            final(self).wf(),
    {
        let cost: u32 = 2 * self.keys_per_claim;
        if self.keys < cost {
            return Err(GameError::InsufficientResources);
        }
        if self.keys_per_claim >= MAX_KEYS_PER_CLAIM && self.time_to_decrease
            >= MAX_TIME_TO_DECREASE {
            return Err(GameError::MaxTierReached);
        }
        let reduced: u64 = if self.time_to_decrease + UPGRADE_INCREMENT <= MAX_TIME_TO_DECREASE {
            self.time_to_decrease + UPGRADE_INCREMENT
        } else {
            MAX_TIME_TO_DECREASE
        };
        let crossed = reduced / TIER_BOUNDARY > self.time_to_decrease / TIER_BOUNDARY;
        self.keys = self.keys - cost;
        self.time_to_decrease = reduced;
        if crossed && self.keys_per_claim < MAX_KEYS_PER_CLAIM {
            self.keys_per_claim = self.keys_per_claim + 1;
        }
        Ok(())
    }

    /// Swaps one gift voucher, given the treasury's balance, and says what
    /// it was swapped for. Where that is tokens, the caller owes the player a
    /// transfer of that amount.
    pub fn redeem_gift(&mut self, balance: u128, seed: &[u8; 32]) -> (outcome: Result<
        Payout,
        GameError,
    >)
        requires
            old(self).wf(),
        ensures
            match within_limits(old(self)@.redeem_gift(balance, seed@)) {
                Ok(s) => outcome == Ok::<Payout, GameError>(payout_for(balance, seed@))
                    && final(self)@ == s,
                Err(e) => outcome == Err::<Payout, GameError>(e) && *final(self) == *old(self),
            },
            outcome matches Ok(Payout::Tokens(amount)) ==> 0 < amount <= balance,
            final(self).wf(),
    {
        if self.gift == 0 {
            return Err(GameError::NoGiftsAvailable);
        }
        let payout = gift_payout(balance, seed);
        match payout {
            Payout::Keys(n) => {
                if self.keys > u32::MAX - n {
                    return Err(GameError::Overflow);
                }
                self.keys = self.keys + n;
            },
            Payout::Tokens(amount) => {
                if self.token_rewarded > u128::MAX - amount {
                    return Err(GameError::Overflow);
                }
                self.token_rewarded = self.token_rewarded + amount;
                self.last_token_rewarded = amount;
            },
        }
        self.gift = self.gift - 1;
        Ok(payout)
    }
}

} // verus!
