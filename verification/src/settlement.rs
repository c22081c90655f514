//! The gift swap, which runs in two phases around a balance query.
//!
//! The first phase checks that the player has a voucher and asks for the
//! treasury's balance at the token service. The second phase takes the reply,
//! decides the payout and books it. Asking, and transferring tokens, is the
//! caller's work: the phases say what is to be asked and what is owed.
//!
//! A player's record is not locked between the phases, and other operations
//! may change it meanwhile. The second phase therefore looks for the voucher
//! again, and takes it only together with the payout. A reply without a
//! balance leaves the voucher where it is, so that the swap can be started
//! again.

use vstd::prelude::*;

use crate::rewards::Payout;

verus! {

/// The question that the first phase puts to the token service: what the
/// treasury holds. The reply is to be handed to the second phase together
/// with `player`.
#[derive(Debug, PartialEq, Eq)]
pub struct BalanceQuery {
    /// The token service to ask.
    pub token_contract: String,
    /// The player whose voucher is being swapped.
    pub player: String,
}

/// What came back from the token service.
#[derive(Debug, PartialEq, Eq)]
pub enum QueryReply {
    /// The query failed.
    Failed,
    /// The query succeeded with these bytes: a balance in JSON.
    Successful(Vec<u8>),
}

/// What the second phase did for the player.
#[derive(Debug, PartialEq, Eq)]
pub struct Settlement {
    /// What the voucher was swapped for. Tokens are owed to the player as a
    /// transfer from the treasury.
    pub payout: Payout,
    /// The same in words.
    pub summary: String,
}

/// The balance that a JSON document states: `serde_json::from_slice` read as
/// a `near_sdk::json_types::U128`, and `None` where that fails.
pub uninterp spec fn json_balance(bytes: Seq<u8>) -> Option<u128>;

/// The balance that a reply carries, if any.
pub open spec fn replied_balance(reply: QueryReply) -> Option<u128> {
    match reply {
        QueryReply::Failed => None,
        QueryReply::Successful(bytes) => json_balance(bytes@),
    }
}

/// Calls `serde_json::from_slice` for a `near_sdk::json_types::U128`: a JSON
/// string that holds the balance in decimal. The result is a function of the
/// bytes alone and is known here only by its name, [`json_balance`]; an input
/// that does not parse gives `None`.
#[verifier::external_body]
pub(crate) fn parse_balance(bytes: &[u8]) -> (balance: Option<u128>)
    ensures
        balance == json_balance(bytes@),
{
    match serde_json::from_slice::<near_sdk::json_types::U128>(bytes) {
        Ok(parsed) => Some(parsed.0),
        Err(_) => None,
    }
}

/// Reads the balance out of a reply.
pub fn balance_of_reply(reply: &QueryReply) -> (balance: Option<u128>)
    ensures
        balance == replied_balance(*reply),
{
    match reply {
        QueryReply::Failed => None,
        QueryReply::Successful(bytes) => parse_balance(bytes.as_slice()),
    }
}

} // verus!
