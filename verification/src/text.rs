//! The short texts that tell a player what an operation granted.

use vstd::prelude::*;
use vstd::string::StringExecFns;

use crate::rewards::{ChestContent, ChestReward, Payout};

verus! {

/// The character of a decimal digit.
pub open spec fn digit_char(d: int) -> char {
    if d == 0 {
        '0'
    } else if d == 1 {
        '1'
    } else if d == 2 {
        '2'
    } else if d == 3 {
        '3'
    } else if d == 4 {
        '4'
    } else if d == 5 {
        '5'
    } else if d == 6 {
        '6'
    } else if d == 7 {
        '7'
    } else if d == 8 {
        '8'
    } else {
        '9'
    }
}

/// A number written in decimal, without leading zeros.
pub open spec fn decimal(n: nat) -> Seq<char>
    decreases n,
{
    if n < 10 {
        seq![digit_char(n as int)]
    } else {
        decimal(n / 10).push(digit_char((n % 10) as int))
    }
}

/// The name under which a chest's content is reported, with its separator.
pub open spec fn content_label(content: ChestContent) -> Seq<char> {
    match content {
        ChestContent::Wood => "Woods: "@,
        ChestContent::Iron => "Irons: "@,
        ChestContent::Stone => "Stones: "@,
        ChestContent::Gift => "Gift: "@,
    }
}

/// The report of an opened chest: the content and its amount, a full stop and
/// a space, and then the extra voucher where there is one.
pub open spec fn chest_summary(reward: ChestReward) -> Seq<char> {
    content_label(reward.content) + decimal(reward.amount as nat) + ". "@ + if reward.extra_gift {
        "Extra gift: 1"@
    } else {
        Seq::<char>::empty()
    }
}

/// The report of a swapped gift voucher.
pub open spec fn payout_summary(payout: Payout) -> Seq<char> {
    match payout {
        Payout::Keys(n) => "Keys: "@ + decimal(n as nat),
        Payout::Tokens(amount) => "Tokens: "@ + decimal(amount as nat),
    }
}

fn digit_str(d: u8) -> (s: &'static str)
    requires
        d < 10,
    ensures
        s@ == seq![digit_char(d as int)],
{
    proof {
        reveal_strlit("0");
        reveal_strlit("1");
        reveal_strlit("2");
        reveal_strlit("3");
        reveal_strlit("4");
        reveal_strlit("5");
        reveal_strlit("6");
        reveal_strlit("7");
        reveal_strlit("8");
        reveal_strlit("9");
    }
    let s = if d == 0 {
        "0"
    } else if d == 1 {
        "1"
    } else if d == 2 {
        "2"
    } else if d == 3 {
        "3"
    } else if d == 4 {
        "4"
    } else if d == 5 {
        "5"
    } else if d == 6 {
        "6"
    } else if d == 7 {
        "7"
    } else if d == 8 {
        "8"
    } else {
        "9"
    };
    assert(s@ =~= seq![digit_char(d as int)]);
    s
}

/// Writes a number in decimal.
pub fn decimal_string(n: u128) -> (text: String)
    ensures
        text@ == decimal(n as nat),
    decreases n,
{
    if n < 10 {
        String::from_str(digit_str(n as u8))
    } else {
        let mut text = decimal_string(n / 10);
        text.append(digit_str((n % 10) as u8));
        assert(text@ =~= decimal((n / 10) as nat).push(digit_char((n % 10) as int)));
        text
    }
}

/// Reports what an opened chest granted.
pub fn describe_chest(reward: &ChestReward) -> (text: String)
    ensures
        text@ == chest_summary(*reward),
{
    let label = match reward.content {
        ChestContent::Wood => "Woods: ",
        ChestContent::Iron => "Irons: ",
        ChestContent::Stone => "Stones: ",
        ChestContent::Gift => "Gift: ",
    };
    let mut text = String::from_str(label);
    let amount = decimal_string(reward.amount as u128);
    text.append(amount.as_str());
    text.append(". ");
    if reward.extra_gift {
        text.append("Extra gift: 1");
    }
    assert(text@ =~= chest_summary(*reward));
    text
}

/// Reports what a gift voucher was swapped for.
pub fn describe_payout(payout: &Payout) -> (text: String)
    ensures
        text@ == payout_summary(*payout),
{
    match payout {
        Payout::Keys(n) => {
            let mut text = String::from_str("Keys: ");
            let amount = decimal_string(*n as u128);
            text.append(amount.as_str());
            text
        },
        Payout::Tokens(amount) => {
            let mut text = String::from_str("Tokens: ");
            let digits = decimal_string(*amount);
            text.append(digits.as_str());
            text
        },
    }
}

} // verus!
