//! What holds of the rules whatever the players do.
//!
//! Each law is a proof about the rules of [`PlayerState`] and
//! [`ContractState`], which are the rules that the operations of
//! [`crate::player::Player`] and [`crate::contract::Contract`] carry out.

use vstd::prelude::*;

use crate::config::{
    CHEST_RESOURCE_COST, MAX_KEYS_PER_CLAIM, MAX_TIME_TO_DECREASE, UPGRADE_INCREMENT,
};
use crate::contract::{moved, ContractState};
use crate::error::GameError;
use crate::player::{within_limits, PlayerState};
use crate::rewards::{lemma_token_amount_in_range, payout_for, Payout, SECONDARY_DRAW};

verus! {

/// One attempt of a player at an operation, with what the host supplied.
pub enum Action {
    ClaimKey { now: int },
    ExchangeChest,
    OpenChest { seed: Seq<u8> },
    Upgrade,
    RedeemGift { balance: u128, seed: Seq<u8> },
}

/// The outcome that the rules give an attempt.
pub open spec fn outcome_of(s: PlayerState, action: Action) -> Result<PlayerState, GameError> {
    match action {
        Action::ClaimKey { now } => s.claim_key(now),
        Action::ExchangeChest => s.exchange_chest(),
        Action::OpenChest { seed } => s.open_chest(seed),
        Action::Upgrade => s.upgrade(),
        Action::RedeemGift { balance, seed } => s.redeem_gift(balance, seed),
    }
}

/// The record after an attempt: the rule's result where the attempt succeeds
/// within machine limits, the record as it was where it fails.
pub open spec fn after(s: PlayerState, action: Action) -> PlayerState {
    match within_limits(outcome_of(s, action)) {
        Ok(t) => t,
        Err(_) => s,
    }
}

/// The record after a row of attempts, one after the other.
pub open spec fn after_all(s: PlayerState, actions: Seq<Action>) -> PlayerState
    decreases actions.len(),
{
    if actions.len() == 0 {
        s
    } else {
        after(after_all(s, actions.drop_last()), actions.last())
    }
}

/// The record after `n` upgrades in a row, stopping at the first that fails.
pub open spec fn upgraded(s: PlayerState, n: nat) -> Result<PlayerState, GameError>
    decreases n,
{
    if n == 0 {
        Ok(s)
    } else {
        match upgraded(s, (n - 1) as nat) {
            Ok(t) => t.upgrade(),
            Err(e) => Err(e),
        }
    }
}

/// The claim tier counts the increments taken off the cooldown: the state of
/// a player who has done nothing to the tier but upgrade.
pub open spec fn on_upgrade_track(s: PlayerState) -> bool {
    s.time_to_decrease == (s.keys_per_claim - 1) * UPGRADE_INCREMENT
}

/// No rule takes a consumable below zero: where an attempt succeeds on a
/// record without negative consumables, the result has none.
pub proof fn lemma_rule_keeps_resources_non_negative(s: PlayerState, action: Action)
    requires
        s.resources_non_negative(),
    ensures
        outcome_of(s, action) matches Ok(t) ==> t.resources_non_negative(),
        after(s, action).resources_non_negative(),
{
}

proof fn lemma_after_all_non_negative(s: PlayerState, actions: Seq<Action>)
    requires
        s.resources_non_negative(),
    ensures
        after_all(s, actions).resources_non_negative(),
    decreases actions.len(),
{
    if actions.len() > 0 {
        lemma_after_all_non_negative(s, actions.drop_last());
        lemma_rule_keeps_resources_non_negative(
            after_all(s, actions.drop_last()),
            actions.last(),
        );
    }
}

/// Keys, chests, wood, iron, stone and gift vouchers never go below zero:
/// after every prefix of every row of attempts, failed ones included, all six
/// are at least zero.
pub proof fn lemma_resources_never_negative(s: PlayerState, actions: Seq<Action>)
    requires
        s.resources_non_negative(),
    ensures
        forall|n: int|
            0 <= n <= actions.len() ==> (#[trigger] after_all(
                s,
                actions.take(n),
            )).resources_non_negative(),
{
    assert forall|n: int| 0 <= n <= actions.len() implies (#[trigger] after_all(
        s,
        actions.take(n),
    )).resources_non_negative() by {
        lemma_after_all_non_negative(s, actions.take(n));
    }
}

/// Every attempt leaves a well-formed record well formed, never lowers the
/// claim tier, the claim gate or the total of tokens rewarded, and takes a
/// gift voucher only in a gift swap that succeeds.
pub proof fn lemma_attempt_keeps_progress(s: PlayerState, action: Action)
    requires
        s.wf(),
    ensures
        after(s, action).wf(),
        after(s, action).keys_per_claim >= s.keys_per_claim,
        after(s, action).time_to_next_key_claimable >= s.time_to_next_key_claimable,
        after(s, action).token_rewarded >= s.token_rewarded,
        after(s, action).gift < s.gift ==> action is RedeemGift && after(s, action).gift == s.gift
            - 1 && within_limits(outcome_of(s, action)) is Ok,
{
}

/// The same over a row of attempts.
pub proof fn lemma_history_keeps_progress(s: PlayerState, actions: Seq<Action>)
    requires
        s.wf(),
    ensures
        after_all(s, actions).wf(),
        after_all(s, actions).keys_per_claim >= s.keys_per_claim,
        after_all(s, actions).time_to_next_key_claimable >= s.time_to_next_key_claimable,
        after_all(s, actions).token_rewarded >= s.token_rewarded,
    decreases actions.len(),
{
    if actions.len() > 0 {
        lemma_history_keeps_progress(s, actions.drop_last());
        lemma_attempt_keeps_progress(after_all(s, actions.drop_last()), actions.last());
    }
}

/// A claim that succeeds moves the claim gate strictly forward, beyond the
/// time of the claim.
pub proof fn lemma_claim_moves_gate_forward(s: PlayerState, now: int)
    requires
        s.wf(),
        s.claim_key(now) is Ok,
    ensures
        s.claim_key(now)->Ok_0.time_to_next_key_claimable > now > s.time_to_next_key_claimable,
        s.claim_key(now)->Ok_0.keys == s.keys + 1,
{
}

/// Of two claims at the same time the second is too early: where the first
/// succeeds, the second fails with `TooEarly`.
pub proof fn lemma_second_claim_is_too_early(s: PlayerState, now: int)
    requires
        s.wf(),
        s.claim_key(now) is Ok,
    ensures
        s.claim_key(now)->Ok_0.claim_key(now) == Err::<PlayerState, GameError>(GameError::TooEarly),
        within_limits(s.claim_key(now)) is Ok ==> within_limits(
            after(s, Action::ClaimKey { now }).claim_key(now),
        ) == Err::<PlayerState, GameError>(GameError::TooEarly),
{
    lemma_claim_moves_gate_forward(s, now);
}

/// A chest cannot be opened without a key and a chest: the attempt fails
/// with `InsufficientResources`, and the record stays as it was.
pub proof fn lemma_open_chest_needs_key_and_chest(s: PlayerState, seed: Seq<u8>)
    requires
        s.keys <= 0 || s.chests <= 0,
    ensures
        s.open_chest(seed) == Err::<PlayerState, GameError>(GameError::InsufficientResources),
        after(s, Action::OpenChest { seed }) == s,
{
}

/// A chest is paid in resources wherever the player holds enough of them,
/// keys or no keys: it costs the resource price of each of wood, iron and
/// stone, adds one chest, and leaves the keys alone.
pub proof fn lemma_exchange_prefers_resources(s: PlayerState)
    requires
        s.affords_chest_in_resources(),
    ensures
        s.exchange_chest() == Ok::<PlayerState, GameError>(
            PlayerState {
                chests: s.chests + 1,
                wood: s.wood - CHEST_RESOURCE_COST,
                iron: s.iron - CHEST_RESOURCE_COST,
                stone: s.stone - CHEST_RESOURCE_COST,
                ..s
            },
        ),
        s.exchange_chest()->Ok_0.keys == s.keys,
{
}

/// An upgrade that succeeds raises the claim tier by one or leaves it, and
/// never takes it above the highest tier.
pub proof fn lemma_upgrade_moves_one_tier_at_most(s: PlayerState)
    requires
        s.wf(),
        s.upgrade() is Ok,
    ensures
        s.keys_per_claim <= s.upgrade()->Ok_0.keys_per_claim <= s.keys_per_claim + 1,
        s.upgrade()->Ok_0.keys_per_claim <= MAX_KEYS_PER_CLAIM,
        s.upgrade()->Ok_0.time_to_decrease <= MAX_TIME_TO_DECREASE,
        s.upgrade()->Ok_0.keys == s.keys - 2 * s.keys_per_claim,
{
}

/// At the highest tier with the cooldown reduction at its ceiling, an
/// upgrade that the player can pay fails with `MaxTierReached`.
pub proof fn lemma_upgrade_stops_at_the_top(s: PlayerState)
    requires
        s.keys_per_claim == MAX_KEYS_PER_CLAIM,
        s.time_to_decrease == MAX_TIME_TO_DECREASE,
        s.keys >= s.upgrade_cost(),
    ensures
        s.upgrade() == Err::<PlayerState, GameError>(GameError::MaxTierReached),
{
}

/// On the upgrade track, an upgrade that the player can pay raises the tier
/// by exactly one and stays on the track, until the highest tier is reached;
/// there it fails with `MaxTierReached`.
pub proof fn lemma_upgrade_climbs_the_track(s: PlayerState)
    requires
        s.wf(),
        on_upgrade_track(s),
        s.keys >= s.upgrade_cost(),
    ensures
        s.keys_per_claim < MAX_KEYS_PER_CLAIM ==> s.upgrade() is Ok && s.upgrade()->Ok_0.keys_per_claim
            == s.keys_per_claim + 1 && on_upgrade_track(s.upgrade()->Ok_0) && s.upgrade()->Ok_0.wf(),
        s.keys_per_claim == MAX_KEYS_PER_CLAIM ==> s.upgrade() == Err::<PlayerState, GameError>(
            GameError::MaxTierReached,
        ),
{
}

/// A player on the first tier who can pay for it reaches the highest tier in
/// three upgrades, the tier rising from one to four and the cooldown
/// reduction to its ceiling; the fourth upgrade fails with `MaxTierReached`
/// where the player could pay for it.
pub proof fn lemma_upgrades_reach_the_top(s: PlayerState)
    requires
        s.keys_per_claim == 1,
        s.time_to_decrease == 0,
        s.keys >= 12,
    ensures
        upgraded(s, 1) is Ok && upgraded(s, 1)->Ok_0.keys_per_claim == 2,
        upgraded(s, 2) is Ok && upgraded(s, 2)->Ok_0.keys_per_claim == 3,
        upgraded(s, 3) is Ok && upgraded(s, 3)->Ok_0.keys_per_claim == MAX_KEYS_PER_CLAIM,
        upgraded(s, 3)->Ok_0.time_to_decrease == MAX_TIME_TO_DECREASE,
        upgraded(s, 3)->Ok_0.keys == s.keys - 12,
        s.keys >= 20 ==> upgraded(s, 4) == Err::<PlayerState, GameError>(GameError::MaxTierReached),
{
    reveal_with_fuel(upgraded, 5);
    assert(upgraded(s, 0) == Ok::<PlayerState, GameError>(s));
    lemma_upgrade_climbs_the_track(s);
    let s1 = upgraded(s, 1)->Ok_0;
    lemma_upgrade_climbs_the_track(s1);
    let s2 = upgraded(s, 2)->Ok_0;
    lemma_upgrade_climbs_the_track(s2);
}

/// A gift swap that succeeds takes exactly one voucher and books exactly the
/// payout: keys on the record, or tokens on the two audit fields. A token
/// payout is more than nothing and no more than the treasury holds.
pub proof fn lemma_swap_takes_one_voucher(s: PlayerState, balance: u128, seed: Seq<u8>)
    requires
        s.redeem_gift(balance, seed) is Ok,
    ensures
        s.gift > 0,
        s.redeem_gift(balance, seed)->Ok_0.gift == s.gift - 1,
        match payout_for(balance, seed) {
            Payout::Keys(n) => {
                &&& s.redeem_gift(balance, seed)->Ok_0.keys == s.keys + n
                &&& s.redeem_gift(balance, seed)->Ok_0.token_rewarded == s.token_rewarded
            },
            Payout::Tokens(amount) => {
                &&& 0 < amount <= balance
                &&& s.redeem_gift(balance, seed)->Ok_0.keys == s.keys
                &&& s.redeem_gift(balance, seed)->Ok_0.token_rewarded == s.token_rewarded + amount
                &&& s.redeem_gift(balance, seed)->Ok_0.last_token_rewarded == amount
            },
        },
        balance == 0 ==> payout_for(balance, seed) is Keys,
{
    lemma_token_amount_in_range(seed[SECONDARY_DRAW as int] as u32);
}

/// A failed balance query costs nothing: the second phase fails with
/// `ExternalCallFailed`, the player's vouchers are as they were, and the
/// first phase accepts the player again.
pub proof fn lemma_failed_query_allows_retry(
    before: ContractState,
    after: ContractState,
    caller: Seq<char>,
    seed: Seq<u8>,
)
    requires
        before.swap_gift(caller) is Ok,
        moved(before, after, before.on_ft_balance_of(caller, None, seed)),
    ensures
        before.on_ft_balance_of(caller, None, seed) == Err::<ContractState, GameError>(
            GameError::ExternalCallFailed,
        ),
        after == before,
        after.players[caller].gift == before.players[caller].gift,
        after.swap_gift(caller) is Ok,
{
}

/// An operation of one player changes nobody else's record.
pub proof fn lemma_other_players_untouched(
    c: ContractState,
    id: Seq<char>,
    outcome: Result<PlayerState, GameError>,
    other: Seq<char>,
)
    requires
        other != id,
        c.record(id, outcome) is Ok,
    ensures
        c.record(id, outcome)->Ok_0.players.contains_key(other) == c.players.contains_key(other),
        c.record(id, outcome)->Ok_0.players[other] == c.players[other],
        c.record(id, outcome)->Ok_0.token_contract == c.token_contract,
{
}

/// No operation removes a record: whoever has one keeps one.
pub proof fn lemma_records_are_kept(
    c: ContractState,
    id: Seq<char>,
    outcome: Result<PlayerState, GameError>,
    whoever: Seq<char>,
)
    requires
        c.players.contains_key(whoever),
        c.record(id, outcome) is Ok,
    ensures
        c.record(id, outcome)->Ok_0.players.contains_key(whoever),
{
}

} // verus!
