use chest_economy::rewards::{
    chest_content, chest_quantity, draw, gift_payout, random_amount, sample_chest, token_amount,
    ChestContent, ChestReward, Payout,
};
use chest_economy::text::{decimal_string, describe_chest, describe_payout};

const UNIT: u128 = 1_000_000_000_000_000_000_000_000;

fn rewards_seed(primary: u8, secondary: u8, quantity: u8) -> [u8; 32] {
    let mut seed = [7u8; 32];
    seed[0] = primary;
    seed[1] = secondary;
    seed[2] = quantity;
    seed
}

#[test]
fn draw_reduces_modulo_a_hundred() {
    assert_eq!(draw(0), 0);
    assert_eq!(draw(99), 99);
    assert_eq!(draw(100), 0);
    assert_eq!(draw(199), 99);
    assert_eq!(draw(255), 55);
}

#[test]
fn random_amount_picks_the_band_of_the_draw() {
    let chances = [60u8, 35, 4, 1];
    let amounts = [10u32, 20, 50, 100];
    assert_eq!(random_amount(0, &chances, &amounts), 10);
    assert_eq!(random_amount(59, &chances, &amounts), 10);
    assert_eq!(random_amount(60, &chances, &amounts), 20);
    assert_eq!(random_amount(94, &chances, &amounts), 20);
    assert_eq!(random_amount(95, &chances, &amounts), 50);
    assert_eq!(random_amount(98, &chances, &amounts), 50);
    assert_eq!(random_amount(99, &chances, &amounts), 100);
    assert_eq!(random_amount(159, &chances, &amounts), 10);
    assert_eq!(random_amount(160, &chances, &amounts), 20);
}

#[test]
fn random_amount_is_zero_beyond_the_last_band() {
    assert_eq!(random_amount(50, &[20, 30], &[1, 2]), 0);
    assert_eq!(random_amount(49, &[20, 30], &[1, 2]), 2);
    assert_eq!(random_amount(19, &[20, 30], &[1, 2]), 1);
    assert_eq!(random_amount(0, &[], &[]), 0);
    assert_eq!(random_amount(0, &[0, 0], &[5, 6]), 0);
}

#[test]
fn random_amount_stops_at_the_shorter_column() {
    assert_eq!(random_amount(25, &[20, 30, 50], &[1]), 0);
    assert_eq!(random_amount(5, &[20, 30, 50], &[1]), 1);
    assert_eq!(random_amount(25, &[20], &[1, 2, 3]), 0);
}

#[test]
fn random_amount_takes_large_chances() {
    assert_eq!(random_amount(99, &[255, 255], &[8, 9]), 8);
    assert_eq!(random_amount(99, &[99, 255], &[8, 9]), 9);
}

#[test]
fn chest_content_thresholds() {
    assert_eq!(chest_content(0), ChestContent::Wood);
    assert_eq!(chest_content(31), ChestContent::Wood);
    assert_eq!(chest_content(32), ChestContent::Iron);
    assert_eq!(chest_content(63), ChestContent::Iron);
    assert_eq!(chest_content(64), ChestContent::Stone);
    assert_eq!(chest_content(95), ChestContent::Stone);
    assert_eq!(chest_content(96), ChestContent::Gift);
    assert_eq!(chest_content(99), ChestContent::Gift);
    assert_eq!(chest_content(100), ChestContent::Wood);
    assert_eq!(chest_content(196), ChestContent::Gift);
}

#[test]
fn chest_quantity_thresholds() {
    assert_eq!(chest_quantity(5), 10);
    assert_eq!(chest_quantity(59), 10);
    assert_eq!(chest_quantity(60), 20);
    assert_eq!(chest_quantity(94), 20);
    assert_eq!(chest_quantity(95), 50);
    assert_eq!(chest_quantity(98), 50);
    assert_eq!(chest_quantity(99), 100);
    assert_eq!(chest_quantity(255), 10);
}

#[test]
fn sample_chest_reads_three_bytes() {
    assert_eq!(
        sample_chest(&rewards_seed(10, 50, 5)),
        ChestReward { content: ChestContent::Wood, amount: 10, extra_gift: false }
    );
    assert_eq!(
        sample_chest(&rewards_seed(40, 9, 95)),
        ChestReward { content: ChestContent::Iron, amount: 50, extra_gift: true }
    );
    assert_eq!(
        sample_chest(&rewards_seed(97, 10, 99)),
        ChestReward { content: ChestContent::Gift, amount: 1, extra_gift: false }
    );
    assert_eq!(
        sample_chest(&rewards_seed(95, 0, 99)),
        ChestReward { content: ChestContent::Stone, amount: 100, extra_gift: true }
    );
}

#[test]
fn token_amount_exact_values() {
    assert_eq!(token_amount(0), 10_000_000 * UNIT);
    assert_eq!(token_amount(0), 10_000_000_000_000_000_000_000_000_000_000);
    assert_eq!(token_amount(255), 10_000_255 * UNIT);
    assert_eq!(token_amount(9_999_999), 19_999_999 * UNIT);
    assert_eq!(token_amount(10_000_000), 10_000_000 * UNIT);
    assert_eq!(token_amount(u32::MAX), 14_967_295 * UNIT);
}

#[test]
fn gift_payout_with_an_empty_treasury_is_always_keys() {
    assert_eq!(gift_payout(0, &rewards_seed(0, 0, 0)), Payout::Keys(40));
    assert_eq!(gift_payout(0, &rewards_seed(14, 0, 0)), Payout::Keys(40));
    assert_eq!(gift_payout(0, &rewards_seed(15, 0, 0)), Payout::Keys(20));
    assert_eq!(gift_payout(0, &rewards_seed(49, 0, 0)), Payout::Keys(20));
    assert_eq!(gift_payout(0, &rewards_seed(50, 0, 0)), Payout::Keys(10));
    assert_eq!(gift_payout(0, &rewards_seed(99, 0, 0)), Payout::Keys(10));
    assert_eq!(gift_payout(0, &rewards_seed(185, 0, 0)), Payout::Keys(10));
}

#[test]
fn gift_payout_with_a_balance_pays_keys_most_of_the_time() {
    let balance = 5 * UNIT;
    assert_eq!(gift_payout(balance, &rewards_seed(0, 0, 0)), Payout::Keys(40));
    assert_eq!(gift_payout(balance, &rewards_seed(9, 0, 0)), Payout::Keys(40));
    assert_eq!(gift_payout(balance, &rewards_seed(10, 0, 0)), Payout::Keys(20));
    assert_eq!(gift_payout(balance, &rewards_seed(29, 0, 0)), Payout::Keys(20));
    assert_eq!(gift_payout(balance, &rewards_seed(30, 0, 0)), Payout::Keys(10));
    assert_eq!(gift_payout(balance, &rewards_seed(84, 0, 0)), Payout::Keys(10));
    assert_eq!(gift_payout(balance, &rewards_seed(85, 0, 0)), Payout::Tokens(balance));
}

#[test]
fn gift_payout_tokens_are_capped_at_the_balance() {
    let sampled = 10_000_042 * UNIT;
    assert_eq!(gift_payout(sampled + 1, &rewards_seed(85, 42, 0)), Payout::Tokens(sampled));
    assert_eq!(gift_payout(sampled, &rewards_seed(99, 42, 0)), Payout::Tokens(sampled));
    assert_eq!(gift_payout(sampled - 1, &rewards_seed(99, 42, 0)), Payout::Tokens(sampled - 1));
    assert_eq!(gift_payout(1, &rewards_seed(99, 42, 0)), Payout::Tokens(1));
    assert_eq!(gift_payout(u128::MAX, &rewards_seed(99, 255, 0)), Payout::Tokens(10_000_255 * UNIT));
}

#[test]
fn gift_payout_token_amount_does_not_depend_on_the_tier_byte() {
    let rich = u128::MAX;
    assert_eq!(gift_payout(rich, &rewards_seed(85, 3, 0)), gift_payout(rich, &rewards_seed(99, 3, 0)));
    assert_eq!(gift_payout(rich, &rewards_seed(85, 3, 0)), Payout::Tokens(10_000_003 * UNIT));
}

#[test]
fn decimal_string_writes_numbers() {
    assert_eq!(decimal_string(0), "0");
    assert_eq!(decimal_string(7), "7");
    assert_eq!(decimal_string(9), "9");
    assert_eq!(decimal_string(10), "10");
    assert_eq!(decimal_string(1234567890), "1234567890");
    assert_eq!(decimal_string(u128::MAX), "340282366920938463463374607431768211455");
    assert_eq!(decimal_string(u128::MAX), u128::MAX.to_string());
}

#[test]
fn describe_chest_texts() {
    let wood = ChestReward { content: ChestContent::Wood, amount: 10, extra_gift: false };
    assert_eq!(describe_chest(&wood), "Woods: 10. ");
    let iron = ChestReward { content: ChestContent::Iron, amount: 20, extra_gift: true };
    assert_eq!(describe_chest(&iron), "Irons: 20. Extra gift: 1");
    let stone = ChestReward { content: ChestContent::Stone, amount: 100, extra_gift: false };
    assert_eq!(describe_chest(&stone), "Stones: 100. ");
    let gift = ChestReward { content: ChestContent::Gift, amount: 1, extra_gift: true };
    assert_eq!(describe_chest(&gift), "Gift: 1. Extra gift: 1");
}

#[test]
fn describe_payout_texts() {
    assert_eq!(describe_payout(&Payout::Keys(40)), "Keys: 40");
    assert_eq!(describe_payout(&Payout::Keys(10)), "Keys: 10");
    assert_eq!(describe_payout(&Payout::Tokens(500)), "Tokens: 500");
    assert_eq!(
        describe_payout(&Payout::Tokens(10_000_007 * UNIT)),
        "Tokens: 10000007000000000000000000000000"
    );
}
