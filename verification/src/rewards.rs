//! The reward tables and the way a random byte picks from them.
//!
//! A table is a row of chances, in percent, with one outcome per chance. The
//! chances divide the range of a draw into consecutive bands; a draw picks the
//! outcome of the band it falls into. Each decision of one call reads a byte
//! of its own from the seed, so that no two decisions depend on each other.

use vstd::prelude::*;

use crate::config::{
    DRAW_RANGE, EXTRA_GIFT_CHANCE, GIFT_DRAW_MODULUS, MAX_GIFT_AMOUNT, MIN_GIFT_AMOUNT, TOKEN_UNIT,
};

verus! {

/// The seed byte that decides what a chest holds, or which tier a gift swap
/// pays.
pub const PRIMARY_DRAW: usize = 0;

/// The seed byte that decides whether a chest carries an extra gift voucher,
/// or how many tokens a gift swap pays.
pub const SECONDARY_DRAW: usize = 1;

/// The seed byte that decides how much of a resource a chest holds.
pub const QUANTITY_DRAW: usize = 2;

/// A random byte reduced to a percentage.
pub open spec fn draw_of(byte: u8) -> int {
    byte as int % (DRAW_RANGE as int)
}

/// The sum of the first `n` chances: where band `n` begins.
pub open spec fn cumulative(chances: Seq<u8>, n: int) -> int
    decreases n,
{
    if n <= 0 {
        0
    } else {
        cumulative(chances, n - 1) + chances[n - 1]
    }
}

/// The draw falls into band `i` of the table.
pub open spec fn in_band(chances: Seq<u8>, draw: int, i: int) -> bool {
    cumulative(chances, i) <= draw < cumulative(chances, i + 1)
}

/// The number of rows of a table whose two columns may differ in length.
pub open spec fn rows(chances: Seq<u8>, amounts: Seq<u32>) -> int {
    if chances.len() <= amounts.len() {
        chances.len() as int
    } else {
        amounts.len() as int
    }
}

/// Bands begin in ascending order.
pub proof fn lemma_cumulative_ascends(chances: Seq<u8>, a: int, b: int)
    requires
        a <= b,
    ensures
        cumulative(chances, a) <= cumulative(chances, b),
    decreases b - a,
{
    if a < b {
        lemma_cumulative_ascends(chances, a, b - 1);
        if b <= 0 {
            assert(cumulative(chances, b) == 0);
            assert(cumulative(chances, b - 1) == 0);
        }
    }
}

/// Reduces a random byte to a percentage.
pub fn draw(byte: u8) -> (d: u8)
    ensures
        d == draw_of(byte),
        d < DRAW_RANGE,
{
    byte % DRAW_RANGE
}

/// Picks from a table: the amount of the band that the byte's draw falls
/// into, and zero where the draw lies beyond the last band.
pub fn random_amount(byte: u8, chances: &[u8], amounts: &[u32]) -> (amount: u32)
    ensures
        forall|i: int|
            0 <= i < rows(chances@, amounts@) && in_band(chances@, draw_of(byte), i)
                ==> amount == amounts@[i],
        draw_of(byte) >= cumulative(chances@, rows(chances@, amounts@)) ==> amount == 0,
{
    let d: u32 = draw(byte) as u32;
    let n: usize = if chances.len() <= amounts.len() {
        chances.len()
    } else {
        amounts.len()
    };
    let mut sum: u32 = 0;
    let mut i: usize = 0;
    while i < n
        invariant
            i <= n,
            n == rows(chances@, amounts@),
            d == draw_of(byte),
            sum == cumulative(chances@, i as int),
            sum <= d < 100,
            forall|j: int| 0 <= j <= i ==> cumulative(chances@, j) <= d,
        decreases n - i,
    {
        sum = sum + chances[i] as u32;
        if d < sum {
            proof {
                let found = i as int;
                assert(in_band(chances@, d as int, found));
                assert forall|k: int|
                    0 <= k < n && in_band(chances@, d as int, k) implies k == found by {
                    if k > found {
                        lemma_cumulative_ascends(chances@, found + 1, k);
                    }
                }
                lemma_cumulative_ascends(chances@, found + 1, n as int);
            }
            return amounts[i];
        }
        i = i + 1;
    }
    0
}

/// What a chest can hold.
#[derive(Clone, Copy, Debug, PartialEq, Eq, Structural)]
pub enum ChestContent {
    Wood,
    Iron,
    Stone,
    Gift,
}

/// What opening one chest grants.
#[derive(Clone, Copy, Debug, PartialEq, Eq, Structural)]
pub struct ChestReward {
    /// The kind of thing the chest holds.
    pub content: ChestContent,
    /// How much of it: a quantity of a resource, or one gift voucher.
    pub amount: u32,
    /// Whether an extra gift voucher comes with it.
    pub extra_gift: bool,
}

/// What a gift voucher is swapped for.
#[derive(Clone, Copy, Debug, PartialEq, Eq, Structural)]
pub enum Payout {
    /// This many keys, added to the player's record.
    Keys(u32),
    /// This many tokens, in smallest units, to be transferred to the player.
    Tokens(u128),
}

/// The content table: 32% wood, 32% iron, 32% stone, 4% a gift voucher.
pub open spec fn content_for(draw: int) -> ChestContent {
    if draw < 32 {
        ChestContent::Wood
    } else if draw < 64 {
        ChestContent::Iron
    } else if draw < 96 {
        ChestContent::Stone
    } else {
        ChestContent::Gift
    }
}

/// The quantity table: 60% ten, 35% twenty, 4% fifty, 1% a hundred.
pub open spec fn quantity_for(draw: int) -> int {
    if draw < 60 {
        10
    } else if draw < 95 {
        20
    } else if draw < 99 {
        50
    } else {
        100
    }
}

/// What a chest grants under a seed. Content, extra voucher and quantity are
/// decided by three different bytes.
pub open spec fn chest_reward_for(seed: Seq<u8>) -> ChestReward {
    let content = content_for(draw_of(seed[PRIMARY_DRAW as int]));
    ChestReward {
        content,
        amount: if content == ChestContent::Gift {
            1
        } else {
            quantity_for(draw_of(seed[QUANTITY_DRAW as int])) as u32
        },
        extra_gift: draw_of(seed[SECONDARY_DRAW as int]) < EXTRA_GIFT_CHANCE,
    }
}

/// The token reward that a raw draw stands for, in smallest units: a whole
/// number of tokens between the least and the greatest reward.
pub open spec fn token_amount_for(raw: u32) -> int {
    (MIN_GIFT_AMOUNT + (raw as int % (GIFT_DRAW_MODULUS as int)) % (MAX_GIFT_AMOUNT
        - MIN_GIFT_AMOUNT + 1)) * TOKEN_UNIT
}

/// The keys that a swap pays when the treasury is empty: 15% forty, 35%
/// twenty, 50% ten.
pub open spec fn keys_for_empty_treasury(draw: int) -> int {
    if draw < 15 {
        40
    } else if draw < 50 {
        20
    } else {
        10
    }
}

/// What a gift voucher is swapped for under a seed, given the treasury's
/// balance. With an empty treasury it is always keys. Otherwise it is keys in
/// 85% of the draws (10% forty, 20% twenty, 55% ten), and in the rest the
/// token reward of the secondary byte, or the whole balance where that is
/// less.
pub open spec fn payout_for(balance: u128, seed: Seq<u8>) -> Payout {
    let draw = draw_of(seed[PRIMARY_DRAW as int]);
    if balance == 0 {
        Payout::Keys(keys_for_empty_treasury(draw) as u32)
    } else if draw < 10 {
        Payout::Keys(40)
    } else if draw < 30 {
        Payout::Keys(20)
    } else if draw < 85 {
        Payout::Keys(10)
    } else {
        let sampled = token_amount_for(seed[SECONDARY_DRAW as int] as u32);
        Payout::Tokens(
            if balance < sampled {
                balance
            } else {
                sampled as u128
            },
        )
    }
}

/// A token reward is at least the least and at most the greatest reward.
pub proof fn lemma_token_amount_in_range(raw: u32)
    ensures
        MIN_GIFT_AMOUNT * TOKEN_UNIT <= token_amount_for(raw) <= MAX_GIFT_AMOUNT * TOKEN_UNIT,
        token_amount_for(raw) <= u128::MAX,
{
}

/// Picks what a chest holds from the content table.
pub fn chest_content(byte: u8) -> (content: ChestContent)
    ensures
        content == content_for(draw_of(byte)),
{
    let d = draw(byte);
    if d < 32 {
        ChestContent::Wood
    } else if d < 64 {
        ChestContent::Iron
    } else if d < 96 {
        ChestContent::Stone
    } else {
        ChestContent::Gift
    }
}

/// Picks a resource quantity from the quantity table.
pub fn chest_quantity(byte: u8) -> (amount: u32)
    ensures
        amount == quantity_for(draw_of(byte)),
{
    let chances: [u8; 4] = [60, 35, 4, 1];
    let amounts: [u32; 4] = [10, 20, 50, 100];
    let amount = random_amount(byte, chances.as_slice(), amounts.as_slice());
    proof {
        let d = draw_of(byte);
        reveal_with_fuel(cumulative, 5);
        assert(cumulative(chances@, 1) == 60);
        assert(cumulative(chances@, 2) == 95);
        assert(cumulative(chances@, 3) == 99);
        assert(cumulative(chances@, 4) == 100);
        if d < 60 {
            assert(in_band(chances@, d, 0));
        } else if d < 95 {
            assert(in_band(chances@, d, 1));
        } else if d < 99 {
            assert(in_band(chances@, d, 2));
        } else {
            assert(in_band(chances@, d, 3));
        }
    }
    amount
}

/// Decides what a chest grants.
pub fn sample_chest(seed: &[u8; 32]) -> (reward: ChestReward)
    ensures
        reward == chest_reward_for(seed@),
{
    let content = chest_content(seed[PRIMARY_DRAW]);
    let amount: u32 = match content {
        ChestContent::Gift => 1,
        _ => chest_quantity(seed[QUANTITY_DRAW]),
    };
    let extra_gift = draw(seed[SECONDARY_DRAW]) < EXTRA_GIFT_CHANCE;
    ChestReward { content, amount, extra_gift }
}

/// Turns a raw draw into a token reward, in smallest units.
pub fn token_amount(raw: u32) -> (amount: u128)
    ensures
        amount == token_amount_for(raw),
{
    let whole: u128 = MIN_GIFT_AMOUNT + ((raw % GIFT_DRAW_MODULUS) as u128) % (MAX_GIFT_AMOUNT
        - MIN_GIFT_AMOUNT + 1);
    whole * TOKEN_UNIT
}

/// Decides what a gift voucher is swapped for.
pub fn gift_payout(balance: u128, seed: &[u8; 32]) -> (payout: Payout)
    ensures
        payout == payout_for(balance, seed@),
        payout matches Payout::Tokens(amount) ==> 0 < amount <= balance,
{
    let d = draw(seed[PRIMARY_DRAW]);
    if balance == 0 {
        if d < 15 {
            Payout::Keys(40)
        } else if d < 50 {
            Payout::Keys(20)
        } else {
            Payout::Keys(10)
        }
    } else if d < 10 {
        Payout::Keys(40)
    } else if d < 30 {
        Payout::Keys(20)
    } else if d < 85 {
        Payout::Keys(10)
    } else {
        let sampled = token_amount(seed[SECONDARY_DRAW] as u32);
        if balance < sampled {
            Payout::Tokens(balance)
        } else {
            Payout::Tokens(sampled)
        }
    }
}

} // verus!
