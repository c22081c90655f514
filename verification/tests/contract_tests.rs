use chest_economy::config::COOLDOWN_BASE;
use chest_economy::contract::Contract;
use chest_economy::error::GameError;
use chest_economy::ledger::PlayerLedger;
use chest_economy::player::Player;
use chest_economy::rewards::Payout;
use chest_economy::settlement::{balance_of_reply, BalanceQuery, QueryReply, Settlement};

fn contract_seed(primary: u8, secondary: u8, quantity: u8) -> [u8; 32] {
    let mut seed = [0u8; 32];
    seed[0] = primary;
    seed[1] = secondary;
    seed[2] = quantity;
    seed
}

fn json_reply(text: &str) -> QueryReply {
    QueryReply::Successful(text.as_bytes().to_vec())
}

#[test]
fn ledger_starts_empty() {
    let ledger = PlayerLedger::new();
    assert_eq!(ledger.get("alice.testnet"), None);
    assert_eq!(ledger.get(""), None);
}

#[test]
fn ledger_put_then_get() {
    let mut ledger = PlayerLedger::new();
    let alice = Player::new(1);
    let bob = Player::new(2);
    ledger.put("alice.testnet", alice);
    ledger.put("bob.testnet", bob);
    assert_eq!(ledger.get("alice.testnet"), Some(alice));
    assert_eq!(ledger.get("bob.testnet"), Some(bob));
    assert_eq!(ledger.get("carol.testnet"), None);
    assert_eq!(ledger.get("alice"), None);
}

#[test]
fn ledger_put_replaces_the_record_of_the_same_identity() {
    let mut ledger = PlayerLedger::new();
    ledger.put("alice.testnet", Player::new(1));
    ledger.put("bob.testnet", Player::new(2));
    let mut richer = Player::new(1);
    richer.keys = 500;
    ledger.put("alice.testnet", richer);
    assert_eq!(ledger.get("alice.testnet"), Some(richer));
    assert_eq!(ledger.get("bob.testnet"), Some(Player::new(2)));
}

#[test]
fn ledger_get_or_create_creates_once() {
    let mut ledger = PlayerLedger::new();
    let first = ledger.get_or_create("alice.testnet", 10);
    assert_eq!(first, Player::new(10));
    let second = ledger.get_or_create("alice.testnet", 99);
    assert_eq!(second, Player::new(10));
    assert_eq!(ledger.get("alice.testnet"), Some(Player::new(10)));
}

#[test]
fn new_contract_has_no_players_and_the_default_token_service() {
    let contract = Contract::new();
    assert_eq!(contract.token_contract, "blackdragontoken.testnet");
    assert_eq!(contract.get_player("alice.testnet"), None);
}

#[test]
fn create_player_is_idempotent() {
    let mut contract = Contract::new();
    contract.create_player("alice.testnet", 1_000);
    assert_eq!(contract.get_player("alice.testnet"), Some(Player::new(1_000)));
    assert_eq!(contract.claim_key("alice.testnet", 2_000), Ok(()));
    let claimed = contract.get_player("alice.testnet").unwrap();
    contract.create_player("alice.testnet", 5_000);
    assert_eq!(contract.get_player("alice.testnet"), Some(claimed));
    assert_eq!(contract.get_player("bob.testnet"), None);
}

#[test]
fn every_operation_needs_a_record() {
    let mut contract = Contract::new();
    contract.create_player("alice.testnet", 0);
    let seed = contract_seed(10, 50, 5);
    assert_eq!(contract.claim_key("bob.testnet", 10), Err(GameError::NotFound));
    assert_eq!(contract.exchange_chest("bob.testnet"), Err(GameError::NotFound));
    assert_eq!(contract.open_chest("bob.testnet", &seed), Err(GameError::NotFound));
    assert_eq!(contract.upgrade("bob.testnet"), Err(GameError::NotFound));
    assert_eq!(contract.swap_gift("bob.testnet"), Err(GameError::NotFound));
    assert_eq!(contract.settle("bob.testnet", 5, &seed), Err(GameError::NotFound));
    assert_eq!(
        contract.on_ft_balance_of("bob.testnet", &json_reply("\"5\""), &seed),
        Err(GameError::NotFound)
    );
    assert_eq!(contract.get_player("bob.testnet"), None);
    assert_eq!(contract.get_player("alice.testnet"), Some(Player::new(0)));
}

#[test]
fn operations_touch_only_the_caller() {
    let mut contract = Contract::new();
    contract.create_player("alice.testnet", 0);
    contract.create_player("bob.testnet", 0);
    assert_eq!(contract.upgrade("alice.testnet"), Ok(()));
    assert_eq!(contract.exchange_chest("alice.testnet"), Ok(()));
    assert_eq!(contract.get_player("bob.testnet"), Some(Player::new(0)));
    let alice = contract.get_player("alice.testnet").unwrap();
    assert_eq!((alice.keys, alice.chests, alice.keys_per_claim), (96, 100, 2));
}

#[test]
fn contract_errors_leave_the_record_alone() {
    let mut contract = Contract::new();
    contract.create_player("alice.testnet", 100);
    assert_eq!(contract.claim_key("alice.testnet", 100), Err(GameError::TooEarly));
    assert_eq!(contract.get_player("alice.testnet"), Some(Player::new(100)));
    let mut broke = Player::new(100);
    broke.keys = 0;
    contract.players.put("alice.testnet", broke);
    assert_eq!(
        contract.open_chest("alice.testnet", &contract_seed(0, 0, 0)),
        Err(GameError::InsufficientResources)
    );
    assert_eq!(contract.exchange_chest("alice.testnet"), Err(GameError::InsufficientResources));
    assert_eq!(contract.upgrade("alice.testnet"), Err(GameError::InsufficientResources));
    assert_eq!(contract.get_player("alice.testnet"), Some(broke));
}

#[test]
fn end_to_end_from_sign_in_to_an_opened_chest() {
    let mut contract = Contract::new();
    contract.create_player("alice.testnet", 1_000);
    let mut alice = contract.get_player("alice.testnet").unwrap();
    assert_eq!((alice.keys, alice.chests, alice.gift), (99, 99, 20));

    alice.keys = 0;
    alice.chests = 0;
    contract.players.put("alice.testnet", alice);

    assert_eq!(contract.claim_key("alice.testnet", 1_000), Err(GameError::TooEarly));
    assert_eq!(contract.claim_key("alice.testnet", 1_001), Ok(()));
    assert_eq!(contract.get_player("alice.testnet").unwrap().keys, 1);

    assert_eq!(contract.exchange_chest("alice.testnet"), Ok(()));
    let alice = contract.get_player("alice.testnet").unwrap();
    assert_eq!((alice.keys, alice.chests), (0, 1));
    assert_eq!(
        contract.open_chest("alice.testnet", &contract_seed(10, 50, 5)),
        Err(GameError::InsufficientResources)
    );

    assert_eq!(contract.claim_key("alice.testnet", 1_002 + COOLDOWN_BASE), Ok(()));
    assert_eq!(
        contract.open_chest("alice.testnet", &contract_seed(10, 50, 5)),
        Ok(String::from("Woods: 10. "))
    );
    let alice = contract.get_player("alice.testnet").unwrap();
    assert_eq!((alice.keys, alice.chests, alice.wood), (0, 0, 10));
    assert_eq!((alice.iron, alice.stone, alice.gift), (0, 0, 20));
}

#[test]
fn opening_a_chest_is_reproducible_under_a_fixed_seed() {
    let seed = contract_seed(10, 50, 5);
    let mut first = Contract::new();
    let mut second = Contract::new();
    first.create_player("alice.testnet", 0);
    second.create_player("alice.testnet", 0);
    assert_eq!(first.open_chest("alice.testnet", &seed), second.open_chest("alice.testnet", &seed));
    assert_eq!(first.get_player("alice.testnet"), second.get_player("alice.testnet"));
    assert_eq!(first.get_player("alice.testnet").unwrap().wood, 10);
}

#[test]
fn swap_gift_asks_the_token_service() {
    let mut contract = Contract::new();
    contract.create_player("alice.testnet", 0);
    assert_eq!(
        contract.swap_gift("alice.testnet"),
        Ok(BalanceQuery {
            token_contract: String::from("blackdragontoken.testnet"),
            player: String::from("alice.testnet"),
        })
    );
    assert_eq!(contract.get_player("alice.testnet"), Some(Player::new(0)));
}

#[test]
fn swap_gift_without_a_voucher_fails() {
    let mut contract = Contract::new();
    let mut alice = Player::new(0);
    alice.gift = 0;
    contract.players.put("alice.testnet", alice);
    assert_eq!(contract.swap_gift("alice.testnet"), Err(GameError::NoGiftsAvailable));
}

#[test]
fn failed_query_keeps_the_voucher_and_allows_a_retry() {
    let mut contract = Contract::new();
    contract.create_player("alice.testnet", 0);
    let seed = contract_seed(90, 1, 0);
    assert!(contract.swap_gift("alice.testnet").is_ok());
    assert_eq!(
        contract.on_ft_balance_of("alice.testnet", &QueryReply::Failed, &seed),
        Err(GameError::ExternalCallFailed)
    );
    assert_eq!(contract.get_player("alice.testnet"), Some(Player::new(0)));
    assert_eq!(contract.get_player("alice.testnet").unwrap().gift, 20);
    assert!(contract.swap_gift("alice.testnet").is_ok());
    let settled = contract.on_ft_balance_of("alice.testnet", &json_reply("\"0\""), &seed);
    assert_eq!(
        settled,
        Ok(Settlement { payout: Payout::Keys(10), summary: String::from("Keys: 10") })
    );
    assert_eq!(contract.get_player("alice.testnet").unwrap().gift, 19);
}

#[test]
fn unreadable_balance_fails_the_swap() {
    let mut contract = Contract::new();
    contract.create_player("alice.testnet", 0);
    let seed = contract_seed(0, 0, 0);
    for text in ["1000", "", "\"12x\"", "\"-1\"", "{\"balance\":\"5\"}", "\"5\" trailing"] {
        assert_eq!(
            contract.on_ft_balance_of("alice.testnet", &json_reply(text), &seed),
            Err(GameError::ExternalCallFailed)
        );
    }
    assert_eq!(
        contract.on_ft_balance_of(
            "alice.testnet",
            &json_reply("\"340282366920938463463374607431768211456\""),
            &seed
        ),
        Err(GameError::ExternalCallFailed)
    );
    assert_eq!(contract.get_player("alice.testnet"), Some(Player::new(0)));
}

#[test]
fn balance_is_read_from_a_json_string() {
    assert_eq!(balance_of_reply(&QueryReply::Failed), None);
    assert_eq!(balance_of_reply(&json_reply("\"0\"")), Some(0));
    assert_eq!(balance_of_reply(&json_reply("\"1000\"")), Some(1000));
    assert_eq!(balance_of_reply(&json_reply("  \"42\"\n")), Some(42));
    assert_eq!(
        balance_of_reply(&json_reply("\"340282366920938463463374607431768211455\"")),
        Some(u128::MAX)
    );
    assert_eq!(balance_of_reply(&json_reply("1000")), None);
    assert_eq!(balance_of_reply(&json_reply("not json")), None);
}

#[test]
fn settlement_pays_keys_from_an_empty_treasury() {
    let mut contract = Contract::new();
    contract.create_player("alice.testnet", 0);
    let settled = contract.on_ft_balance_of(
        "alice.testnet",
        &json_reply("\"0\""),
        &contract_seed(14, 0, 0),
    );
    assert_eq!(
        settled,
        Ok(Settlement { payout: Payout::Keys(40), summary: String::from("Keys: 40") })
    );
    let alice = contract.get_player("alice.testnet").unwrap();
    assert_eq!((alice.keys, alice.gift), (139, 19));
    assert_eq!((alice.token_rewarded, alice.last_token_rewarded), (0, 0));
}

#[test]
fn settlement_pays_tokens_capped_at_the_balance() {
    let mut contract = Contract::new();
    contract.create_player("alice.testnet", 0);
    let settled = contract.on_ft_balance_of(
        "alice.testnet",
        &json_reply("\"1000\""),
        &contract_seed(90, 3, 0),
    );
    assert_eq!(
        settled,
        Ok(Settlement { payout: Payout::Tokens(1000), summary: String::from("Tokens: 1000") })
    );
    let alice = contract.get_player("alice.testnet").unwrap();
    assert_eq!((alice.keys, alice.gift), (99, 19));
    assert_eq!((alice.token_rewarded, alice.last_token_rewarded), (1000, 1000));
}

#[test]
fn settlement_pays_the_sampled_amount_from_a_full_treasury() {
    let mut contract = Contract::new();
    contract.create_player("alice.testnet", 0);
    let settled = contract.settle(
        "alice.testnet",
        900_000_000_000_000_000_000_000_000_000_000,
        &contract_seed(85, 3, 0),
    );
    let amount: u128 = 10_000_003_000_000_000_000_000_000_000_000;
    assert_eq!(
        settled,
        Ok(Settlement {
            payout: Payout::Tokens(amount),
            summary: String::from("Tokens: 10000003000000000000000000000000"),
        })
    );
    let settled = contract.settle("alice.testnet", 7, &contract_seed(85, 3, 0));
    assert_eq!(
        settled,
        Ok(Settlement { payout: Payout::Tokens(7), summary: String::from("Tokens: 7") })
    );
    let alice = contract.get_player("alice.testnet").unwrap();
    assert_eq!(alice.token_rewarded, amount + 7);
    assert_eq!(alice.last_token_rewarded, 7);
    assert_eq!(alice.gift, 18);
}

#[test]
fn settlement_without_a_voucher_fails() {
    let mut contract = Contract::new();
    let mut alice = Player::new(0);
    alice.gift = 1;
    contract.players.put("alice.testnet", alice);
    let seed = contract_seed(50, 0, 0);
    assert!(contract.settle("alice.testnet", 0, &seed).is_ok());
    let spent = contract.get_player("alice.testnet").unwrap();
    assert_eq!(spent.gift, 0);
    assert_eq!(contract.settle("alice.testnet", 0, &seed), Err(GameError::NoGiftsAvailable));
    assert_eq!(contract.get_player("alice.testnet"), Some(spent));
}

#[test]
fn settlement_refuses_what_would_not_fit() {
    let mut contract = Contract::new();
    let mut alice = Player::new(0);
    alice.keys = u32::MAX;
    contract.players.put("alice.testnet", alice);
    assert_eq!(
        contract.settle("alice.testnet", 0, &contract_seed(0, 0, 0)),
        Err(GameError::Overflow)
    );
    assert_eq!(contract.claim_key("alice.testnet", 1), Err(GameError::Overflow));
    assert_eq!(contract.get_player("alice.testnet"), Some(alice));
}
