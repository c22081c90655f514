//! The entry points: each one looks up the caller's record, applies one rule
//! to it and stores the result.

use vstd::prelude::*;
use vstd::string::StringExecFns;

use crate::error::GameError;
use crate::ledger::PlayerLedger;
use crate::player::{within_limits, Player, PlayerState};
use crate::rewards::{chest_reward_for, payout_for, Payout};
use crate::settlement::{
    balance_of_reply, replied_balance, BalanceQuery, QueryReply, Settlement,
};
use crate::text::{chest_summary, describe_payout, payout_summary};

verus! {

/// The whole state of the game: the players' records and the identity of the
/// token service that pays token rewards.
pub struct Contract {
    pub players: PlayerLedger,
    pub token_contract: String,
}

/// The state of the game over the integers.
pub struct ContractState {
    pub players: Map<Seq<char>, PlayerState>,
    pub token_contract: Seq<char>,
}

/// The name of the token service that a new game is set up with.
pub open spec fn default_token_contract() -> Seq<char> {
    "blackdragontoken.testnet"@
}

impl ContractState {
    /// The state in which nobody has signed in yet.
    pub open spec fn initial() -> ContractState {
        ContractState { players: Map::empty(), token_contract: default_token_contract() }
    }

    /// The state after `id`'s record took the outcome of a rule: refused
    /// where `id` has no record, where the rule refuses, and where the rule's
    /// result does not fit a stored record. Nobody else's record changes.
    pub open spec fn record(self, id: Seq<char>, outcome: Result<PlayerState, GameError>) -> Result<
        ContractState,
        GameError,
    > {
        if !self.players.contains_key(id) {
            Err(GameError::NotFound)
        } else {
            match within_limits(outcome) {
                Ok(s) => Ok(ContractState { players: self.players.insert(id, s), ..self }),
                Err(e) => Err(e),
            }
        }
    }

    /// Signing in: creates the caller's record where there is none.
    pub open spec fn create_player(self, caller: Seq<char>, now: int) -> ContractState {
        if self.players.contains_key(caller) {
            self
        } else {
            ContractState {
                players: self.players.insert(caller, PlayerState::initial(now)),
                ..self
            }
        }
    }

    /// The caller claims a key.
    pub open spec fn claim_key(self, caller: Seq<char>, now: int) -> Result<
        ContractState,
        GameError,
    > {
        self.record(caller, self.players[caller].claim_key(now))
    }

    /// The caller buys a chest.
    pub open spec fn exchange_chest(self, caller: Seq<char>) -> Result<ContractState, GameError> {
        self.record(caller, self.players[caller].exchange_chest())
    }

    /// The caller opens a chest.
    pub open spec fn open_chest(self, caller: Seq<char>, seed: Seq<u8>) -> Result<
        ContractState,
        GameError,
    > {
        self.record(caller, self.players[caller].open_chest(seed))
    }

    /// The caller upgrades the claim tier.
    pub open spec fn upgrade(self, caller: Seq<char>) -> Result<ContractState, GameError> {
        self.record(caller, self.players[caller].upgrade())
    }

    /// The first phase of a gift swap: whether the caller may start one.
    /// Nothing changes either way.
    pub open spec fn swap_gift(self, caller: Seq<char>) -> Result<(), GameError> {
        if !self.players.contains_key(caller) {
            Err(GameError::NotFound)
        } else if self.players[caller].gift <= 0 {
            Err(GameError::NoGiftsAvailable)
        } else {
            Ok(())
        }
    }

    /// The second phase of a gift swap, given the treasury's balance.
    pub open spec fn settle(self, account_id: Seq<char>, balance: u128, seed: Seq<u8>) -> Result<
        ContractState,
        GameError,
    > {
        self.record(account_id, self.players[account_id].redeem_gift(balance, seed))
    }

    /// The second phase of a gift swap, given what the balance query
    /// returned: refused where it returned no balance.
    pub open spec fn on_ft_balance_of(
        self,
        account_id: Seq<char>,
        balance: Option<u128>,
        seed: Seq<u8>,
    ) -> Result<ContractState, GameError> {
        match balance {
            Some(balance) => self.settle(account_id, balance, seed),
            None => Err(GameError::ExternalCallFailed),
        }
    }
}

impl View for Contract {
    type V = ContractState;

    open spec fn view(&self) -> ContractState {
        ContractState { players: self.players@, token_contract: self.token_contract@ }
    }
}

impl Default for Contract {
    /// The same as [`Contract::new`].
    fn default() -> (contract: Contract)
        ensures
            contract@ == ContractState::initial(),
            contract.wf(),
    {
        Contract::new()
    }
}

/// The state went from `before` to `after` as the rule's outcome demands:
/// on success it is the rule's result, on failure it is unchanged.
pub open spec fn moved(
    before: ContractState,
    after: ContractState,
    rule: Result<ContractState, GameError>,
) -> bool {
    match rule {
        Ok(c) => after == c,
        Err(_) => after == before,
    }
}

/// The outcome reports the rule's success, or the rule's error.
pub open spec fn reported<T>(outcome: Result<T, GameError>, rule: Result<ContractState, GameError>) -> bool {
    match rule {
        Ok(_) => outcome is Ok,
        Err(e) => outcome == Err::<T, GameError>(e),
    }
}

impl Contract {
    /// The game is well formed: its ledger is.
    pub open spec fn wf(&self) -> bool {
        self.players.wf()
    }

    /// A game in which nobody has signed in yet.
    pub fn new() -> (contract: Contract)
        ensures
            contract@ == ContractState::initial(),
            contract.wf(),
    {
        Contract {
            players: PlayerLedger::new(),
            token_contract: String::from_str("blackdragontoken.testnet"),
        }
    }

    /// The record of `account_id`, if it has signed in.
    pub fn get_player(&self, account_id: &str) -> (found: Option<Player>)
        requires
            self.wf(),
        ensures
            match found {
                Some(player) => self@.players.contains_key(account_id@) && player@
                    == self@.players[account_id@] && player.wf(),
                None => !self@.players.contains_key(account_id@),
            },
    {
        self.players.get(account_id)
    }

    /// Signs the caller in: creates a record where there is none, with the
    /// claim gate at `current_time`. Signing in again changes nothing.
    pub fn create_player(&mut self, caller: &str, current_time: u64)
        requires
            old(self).wf(),
        ensures
            final(self)@ == old(self)@.create_player(caller@, current_time as int),
            final(self).wf(),
    {
        let _ = self.players.get_or_create(caller, current_time);
    }

    /// The caller claims a key at `current_time`.
    pub fn claim_key(&mut self, caller: &str, current_time: u64) -> (outcome: Result<
        (),
        GameError,
    >)
        requires
            old(self).wf(),
        ensures
            moved(old(self)@, final(self)@, old(self)@.claim_key(caller@, current_time as int)),
            reported(outcome, old(self)@.claim_key(caller@, current_time as int)),
            final(self).wf(),
    {
        match self.players.get(caller) {
            None => Err(GameError::NotFound),
            Some(mut player) => match player.claim_key(current_time) {
                Ok(()) => {
                    self.players.put(caller, player);
                    Ok(())
                },
                Err(e) => Err(e),
            },
        }
    }

    /// The caller buys a chest.
    pub fn exchange_chest(&mut self, caller: &str) -> (outcome: Result<(), GameError>)
        requires
            old(self).wf(),
        ensures
            moved(old(self)@, final(self)@, old(self)@.exchange_chest(caller@)),
            reported(outcome, old(self)@.exchange_chest(caller@)),
            final(self).wf(),
    {
        match self.players.get(caller) {
            None => Err(GameError::NotFound),
            Some(mut player) => match player.exchange_chest() {
                Ok(()) => {
                    self.players.put(caller, player);
                    Ok(())
                },
                Err(e) => Err(e),
            },
        }
    }

    /// The caller opens a chest; the text says what it granted.
    pub fn open_chest(&mut self, caller: &str, seed: &[u8; 32]) -> (outcome: Result<
        String,
        GameError,
    >)
        requires
            old(self).wf(),
        ensures
            moved(old(self)@, final(self)@, old(self)@.open_chest(caller@, seed@)),
            reported(outcome, old(self)@.open_chest(caller@, seed@)),
            outcome matches Ok(text) ==> text@ == chest_summary(chest_reward_for(seed@)),
            final(self).wf(),
    {
        match self.players.get(caller) {
            None => Err(GameError::NotFound),
            Some(mut player) => match player.open_chest(seed) {
                Ok(text) => {
                    self.players.put(caller, player);
                    Ok(text)
                },
                Err(e) => Err(e),
            },
        }
    }

    /// The caller upgrades the claim tier.
    pub fn upgrade(&mut self, caller: &str) -> (outcome: Result<(), GameError>)
        requires
            old(self).wf(),
        ensures
            moved(old(self)@, final(self)@, old(self)@.upgrade(caller@)),
            reported(outcome, old(self)@.upgrade(caller@)),
            final(self).wf(),
    {
        match self.players.get(caller) {
            None => Err(GameError::NotFound),
            Some(mut player) => match player.upgrade() {
                Ok(()) => {
                    self.players.put(caller, player);
                    Ok(())
                },
                Err(e) => Err(e),
            },
        }
    }

    /// The first phase of a gift swap. Where the caller has a voucher, the
    /// result is the balance query to put to the token service; its reply
    /// goes to [`Contract::on_ft_balance_of`]. Nothing is changed.
    pub fn swap_gift(&self, caller: &str) -> (outcome: Result<BalanceQuery, GameError>)
        requires
            self.wf(),
        ensures
            match self@.swap_gift(caller@) {
                Ok(()) => outcome matches Ok(query) && query.token_contract@
                    == self@.token_contract && query.player@ == caller@,
                Err(e) => outcome == Err::<BalanceQuery, GameError>(e),
            },
    {
        match self.players.get(caller) {
            None => Err(GameError::NotFound),
            Some(player) => {
                if player.gift == 0 {
                    Err(GameError::NoGiftsAvailable)
                } else {
                    Ok(
                        BalanceQuery {
                            token_contract: self.token_contract.clone(),
                            player: String::from_str(caller),
                        },
                    )
                }
            },
        }
    }

    /// The second phase of a gift swap, once the treasury's balance is known:
    /// takes one voucher from `account_id` and books the payout that the seed
    /// and the balance decide.
    pub fn settle(&mut self, account_id: &str, balance: u128, seed: &[u8; 32]) -> (outcome: Result<
        Settlement,
        GameError,
    >)
        requires
            old(self).wf(),
        ensures
            moved(old(self)@, final(self)@, old(self)@.settle(account_id@, balance, seed@)),
            reported(outcome, old(self)@.settle(account_id@, balance, seed@)),
            outcome matches Ok(settlement) ==> {
                &&& settlement.payout == payout_for(balance, seed@)
                &&& settlement.summary@ == payout_summary(settlement.payout)
                &&& settlement.payout matches Payout::Tokens(amount) ==> 0 < amount <= balance
            },
            final(self).wf(),
    {
        match self.players.get(account_id) {
            None => Err(GameError::NotFound),
            Some(mut player) => match player.redeem_gift(balance, seed) {
                Ok(payout) => {
                    self.players.put(account_id, player);
                    Ok(Settlement { payout, summary: describe_payout(&payout) })
                },
                Err(e) => Err(e),
            },
        }
    }

    /// The second phase of a gift swap, given the reply to the balance
    /// query. A reply that carries no balance fails the swap and leaves the
    /// voucher with the player.
    pub fn on_ft_balance_of(&mut self, account_id: &str, reply: &QueryReply, seed: &[u8; 32]) -> (
        outcome: Result<Settlement, GameError>
    )
        requires
            old(self).wf(),
        ensures
            moved(
                old(self)@,
                final(self)@,
                old(self)@.on_ft_balance_of(account_id@, replied_balance(*reply), seed@),
            ),
            reported(
                outcome,
                old(self)@.on_ft_balance_of(account_id@, replied_balance(*reply), seed@),
            ),
            outcome matches Ok(settlement) ==> replied_balance(*reply) matches Some(balance) && {
                &&& settlement.payout == payout_for(balance, seed@)
                &&& settlement.summary@ == payout_summary(settlement.payout)
                &&& settlement.payout matches Payout::Tokens(amount) ==> 0 < amount <= balance
            },
            final(self).wf(),
    {
        match balance_of_reply(reply) {
            None => Err(GameError::ExternalCallFailed),
            Some(balance) => self.settle(account_id, balance, seed),
        }
    }
}

} // verus!
