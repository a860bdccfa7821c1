use nameservice::coins::{assert_sent_sufficient_coin, Coin};
use nameservice::contract::{
    execute, execute_register, execute_transfer, instantiate, invalid_char, query, query_resolver,
    validate_name,
};
use nameservice::error::ContractError;
use nameservice::msg::{ExecuteMsg, InstantiateMsg, MessageInfo, QueryAnswer, QueryMsg};
use nameservice::state::{NameRecord, NameRegistry};
use nameservice::token::{BalanceResponse, Constants, QueryMsg as TokenQueryMsg};

fn coin(amount: u128, denom: &str) -> Coin {
    Coin { denom: denom.to_string(), amount }
}

fn info(sender: &str, funds: Vec<Coin>) -> MessageInfo {
    MessageInfo { sender: sender.to_string(), funds }
}

fn setup(purchase_price: Option<Coin>, transfer_price: Option<Coin>) -> NameRegistry {
    let mut reg = NameRegistry::new();
    instantiate(&mut reg, InstantiateMsg { purchase_price, transfer_price });
    reg
}

fn setup_free() -> NameRegistry {
    setup(None, None)
}

fn owner_of(reg: &NameRegistry, name: &str) -> Option<String> {
    reg.resolve(&name.to_string())
}

#[test]
fn register_available_name_and_resolve() {
    let mut reg = setup_free();
    let r = execute_register(&mut reg, info("alice_key", vec![]), "alice".to_string());
    assert_eq!(r, Ok(()));
    assert_eq!(owner_of(&reg, "alice"), Some("alice_key".to_string()));
}

#[test]
fn register_through_execute_dispatch() {
    let mut reg = setup_free();
    let msg = ExecuteMsg::Register { name: "alice".to_string() };
    assert_eq!(execute(&mut reg, info("alice_key", vec![]), msg), Ok(()));
    assert_eq!(owner_of(&reg, "alice"), Some("alice_key".to_string()));
}

#[test]
fn register_name_too_short() {
    let mut reg = setup_free();
    let r = execute_register(&mut reg, info("alice_key", vec![]), "hi".to_string());
    assert_eq!(r, Err(ContractError::NameTooShort { length: 2, min_length: 3 }));
    assert_eq!(owner_of(&reg, "hi"), None);
}

#[test]
fn register_name_too_long() {
    let mut reg = setup_free();
    let name = "0123456789".repeat(7);
    assert_eq!(name.len(), 70);
    let r = execute_register(&mut reg, info("alice_key", vec![]), name.clone());
    assert_eq!(r, Err(ContractError::NameTooLong { length: 70, max_length: 64 }));
    assert_eq!(owner_of(&reg, &name), None);
}

#[test]
fn register_boundary_lengths_accepted() {
    let mut reg = setup_free();
    let shortest = "abc".to_string();
    let longest = "a".repeat(64);
    assert_eq!(execute_register(&mut reg, info("alice_key", vec![]), shortest.clone()), Ok(()));
    assert_eq!(execute_register(&mut reg, info("alice_key", vec![]), longest.clone()), Ok(()));
    assert_eq!(owner_of(&reg, &shortest), Some("alice_key".to_string()));
    assert_eq!(owner_of(&reg, &longest), Some("alice_key".to_string()));
}

#[test]
fn register_reports_first_invalid_character() {
    let mut reg = setup_free();
    let r = execute_register(&mut reg, info("alice_key", vec![]), "ab!cd".to_string());
    assert_eq!(r, Err(ContractError::InvalidCharacter { c: '!' }));
    assert_eq!(owner_of(&reg, "ab!cd"), None);
}

#[test]
fn register_rejects_uppercase_before_later_offenders() {
    let mut reg = setup_free();
    // 'L' comes before '?', so 'L' is reported
    let r = execute_register(&mut reg, info("alice_key", vec![]), "heLlo?".to_string());
    assert_eq!(r, Err(ContractError::InvalidCharacter { c: 'L' }));
}

#[test]
fn register_accepts_all_allowed_character_kinds() {
    let mut reg = setup_free();
    let r = execute_register(&mut reg, info("alice_key", vec![]), "a-b.c_9".to_string());
    assert_eq!(r, Ok(()));
}

#[test]
fn register_taken_name_keeps_existing_record() {
    let mut reg = setup_free();
    assert_eq!(execute_register(&mut reg, info("alice_key", vec![]), "alice".to_string()), Ok(()));
    let r = execute_register(&mut reg, info("bob_key", vec![]), "alice".to_string());
    assert_eq!(r, Err(ContractError::NameTaken { name: "alice".to_string() }));
    assert_eq!(owner_of(&reg, "alice"), Some("alice_key".to_string()));
}

#[test]
fn register_with_sufficient_fee_succeeds() {
    let mut reg = setup(Some(coin(100, "token")), None);
    let r = execute_register(&mut reg, info("alice_key", vec![coin(100, "token")]), "alice".to_string());
    assert_eq!(r, Ok(()));
    assert_eq!(owner_of(&reg, "alice"), Some("alice_key".to_string()));
}

#[test]
fn register_with_insufficient_fee_fails() {
    let mut reg = setup(Some(coin(100, "token")), None);
    let r = execute_register(&mut reg, info("alice_key", vec![coin(99, "token")]), "alice".to_string());
    assert_eq!(
        r,
        Err(ContractError::InsufficientFundsSend {
            denom: "token".to_string(),
            required: 100,
            sent: 99,
        })
    );
    assert_eq!(owner_of(&reg, "alice"), None);
}

#[test]
fn register_with_wrong_denomination_fails() {
    let mut reg = setup(Some(coin(100, "token")), None);
    let r = execute_register(&mut reg, info("alice_key", vec![coin(1000, "earth")]), "alice".to_string());
    assert_eq!(
        r,
        Err(ContractError::InsufficientFundsSend {
            denom: "token".to_string(),
            required: 100,
            sent: 0,
        })
    );
}

#[test]
fn matching_entries_are_not_summed() {
    // two 50-token entries do not add up to the 100-token price
    let r = assert_sent_sufficient_coin(
        &vec![coin(50, "token"), coin(50, "token")],
        &Some(coin(100, "token")),
    );
    assert_eq!(
        r,
        Err(ContractError::InsufficientFundsSend {
            denom: "token".to_string(),
            required: 100,
            sent: 50,
        })
    );
}

#[test]
fn any_matching_entry_suffices() {
    let r = assert_sent_sufficient_coin(
        &vec![coin(1, "earth"), coin(120, "token"), coin(2, "moon")],
        &Some(coin(100, "token")),
    );
    assert_eq!(r, Ok(()));
}

#[test]
fn unset_price_accepts_no_funds() {
    let r = assert_sent_sufficient_coin(&vec![], &None);
    assert_eq!(r, Ok(()));
}

#[test]
fn zero_price_accepts_no_funds() {
    let r = assert_sent_sufficient_coin(&vec![], &Some(coin(0, "token")));
    assert_eq!(r, Ok(()));
}

#[test]
fn zero_price_accepts_any_funds() {
    let r = assert_sent_sufficient_coin(&vec![coin(5, "earth")], &Some(coin(0, "token")));
    assert_eq!(r, Ok(()));
}

#[test]
fn transfer_by_owner_changes_owner() {
    let mut reg = setup_free();
    assert_eq!(execute_register(&mut reg, info("alice_key", vec![]), "alice".to_string()), Ok(()));
    let r = execute_transfer(
        &mut reg,
        info("alice_key", vec![]),
        "alice".to_string(),
        Ok("bob_key".to_string()),
    );
    assert_eq!(r, Ok(()));
    assert_eq!(owner_of(&reg, "alice"), Some("bob_key".to_string()));
}

#[test]
fn transfer_through_execute_dispatch() {
    let mut reg = setup_free();
    assert_eq!(execute_register(&mut reg, info("alice_key", vec![]), "alice".to_string()), Ok(()));
    let msg = ExecuteMsg::Transfer { name: "alice".to_string(), to: Ok("bob_key".to_string()) };
    assert_eq!(execute(&mut reg, info("alice_key", vec![]), msg), Ok(()));
    assert_eq!(owner_of(&reg, "alice"), Some("bob_key".to_string()));
}

#[test]
fn transfer_by_non_owner_is_unauthorized() {
    let mut reg = setup_free();
    assert_eq!(execute_register(&mut reg, info("alice_key", vec![]), "alice".to_string()), Ok(()));
    let r = execute_transfer(
        &mut reg,
        info("frank_key", vec![]),
        "alice".to_string(),
        Ok("bob_key".to_string()),
    );
    assert_eq!(r, Err(ContractError::Unauthorized));
    assert_eq!(owner_of(&reg, "alice"), Some("alice_key".to_string()));
}

#[test]
fn transfer_of_unregistered_name_fails() {
    let mut reg = setup_free();
    let r = execute_transfer(
        &mut reg,
        info("alice_key", vec![]),
        "alice".to_string(),
        Ok("bob_key".to_string()),
    );
    assert_eq!(r, Err(ContractError::NameNotExists { name: "alice".to_string() }));
}

#[test]
fn transfer_with_insufficient_fee_fails() {
    let mut reg = setup(None, Some(coin(5, "token")));
    assert_eq!(execute_register(&mut reg, info("alice_key", vec![]), "alice".to_string()), Ok(()));
    let r = execute_transfer(
        &mut reg,
        info("alice_key", vec![coin(4, "token")]),
        "alice".to_string(),
        Ok("bob_key".to_string()),
    );
    assert_eq!(
        r,
        Err(ContractError::InsufficientFundsSend {
            denom: "token".to_string(),
            required: 5,
            sent: 4,
        })
    );
    assert_eq!(owner_of(&reg, "alice"), Some("alice_key".to_string()));
}

#[test]
fn transfer_with_sufficient_fee_succeeds() {
    let mut reg = setup(Some(coin(2, "token")), Some(coin(5, "token")));
    assert_eq!(
        execute_register(&mut reg, info("alice_key", vec![coin(2, "token")]), "alice".to_string()),
        Ok(())
    );
    let r = execute_transfer(
        &mut reg,
        info("alice_key", vec![coin(5, "token")]),
        "alice".to_string(),
        Ok("bob_key".to_string()),
    );
    assert_eq!(r, Ok(()));
    assert_eq!(owner_of(&reg, "alice"), Some("bob_key".to_string()));
}

#[test]
fn transfer_to_rejected_address_fails() {
    let mut reg = setup_free();
    assert_eq!(execute_register(&mut reg, info("alice_key", vec![]), "alice".to_string()), Ok(()));
    let r = execute_transfer(
        &mut reg,
        info("alice_key", vec![]),
        "alice".to_string(),
        Err("address too short".to_string()),
    );
    assert_eq!(r, Err(ContractError::InvalidAddress { msg: "address too short".to_string() }));
    assert_eq!(owner_of(&reg, "alice"), Some("alice_key".to_string()));
}

#[test]
fn resolve_is_repeatable_without_writes() {
    let mut reg = setup_free();
    assert_eq!(execute_register(&mut reg, info("alice_key", vec![]), "alice".to_string()), Ok(()));
    let first = owner_of(&reg, "alice");
    let second = owner_of(&reg, "alice");
    assert_eq!(first, second);
    let miss_first = owner_of(&reg, "frank");
    let miss_second = owner_of(&reg, "frank");
    assert_eq!(miss_first, None);
    assert_eq!(miss_first, miss_second);
}

#[test]
fn query_resolver_answers_hit_and_miss() {
    let mut reg = setup_free();
    assert_eq!(execute_register(&mut reg, info("alice_key", vec![]), "alice".to_string()), Ok(()));
    let hit = query_resolver(&reg, "alice".to_string());
    assert_eq!(hit.address, Some("alice_key".to_string()));
    let miss = query_resolver(&reg, "frank".to_string());
    assert_eq!(miss.address, None);
}

#[test]
fn query_returns_stored_config() {
    let reg = setup(Some(coin(100, "token")), Some(coin(5, "token")));
    match query(&reg, QueryMsg::Config {}) {
        QueryAnswer::Config(c) => {
            assert_eq!(c.purchase_price, Some(coin(100, "token")));
            assert_eq!(c.transfer_price, Some(coin(5, "token")));
        }
        other => panic!("expected a config answer, got {:?}", other),
    }
}

#[test]
fn query_routes_record_requests() {
    let mut reg = setup_free();
    assert_eq!(execute_register(&mut reg, info("alice_key", vec![]), "alice".to_string()), Ok(()));
    match query(&reg, QueryMsg::ResolveRecord { name: "alice".to_string() }) {
        QueryAnswer::Record(resp) => assert_eq!(resp.address, Some("alice_key".to_string())),
        other => panic!("expected a record answer, got {:?}", other),
    }
}

#[test]
fn instantiate_overwrites_config_silently() {
    let mut reg = setup(Some(coin(100, "token")), None);
    instantiate(&mut reg, InstantiateMsg { purchase_price: None, transfer_price: None });
    let r = execute_register(&mut reg, info("alice_key", vec![]), "alice".to_string());
    assert_eq!(r, Ok(()));
}

#[test]
fn validate_name_directly() {
    assert_eq!(validate_name("abc"), Ok(()));
    assert_eq!(validate_name("ab"), Err(ContractError::NameTooShort { length: 2, min_length: 3 }));
    assert_eq!(validate_name("ab!cd"), Err(ContractError::InvalidCharacter { c: '!' }));
}

#[test]
fn invalid_char_classifies_characters() {
    for c in ['a', 'z', '0', '9', '.', '-', '_'] {
        assert!(!invalid_char(c));
    }
    for c in ['A', 'Z', '!', ' ', '/', ':', '@', '{', '`', 'é'] {
        assert!(invalid_char(c));
    }
}

#[test]
fn from_entries_rejects_duplicate_names() {
    let entries = vec![
        ("alice".to_string(), NameRecord { owner: "alice_key".to_string() }),
        ("alice".to_string(), NameRecord { owner: "bob_key".to_string() }),
    ];
    assert!(NameRegistry::from_entries(None, entries).is_none());
}

#[test]
fn from_entries_round_trips_a_registry() {
    let mut reg = setup_free();
    assert_eq!(execute_register(&mut reg, info("alice_key", vec![]), "alice".to_string()), Ok(()));
    assert_eq!(execute_register(&mut reg, info("bob_key", vec![]), "bobby".to_string()), Ok(()));
    let config = reg.config_ref().clone();
    let entries = reg.entries().clone();
    let rebuilt = NameRegistry::from_entries(config, entries)
        .expect("the entries of a well-formed registry are unique");
    assert_eq!(owner_of(&rebuilt, "alice"), Some("alice_key".to_string()));
    assert_eq!(owner_of(&rebuilt, "bobby"), Some("bob_key".to_string()));
    assert_eq!(owner_of(&rebuilt, "frank"), None);
}

#[test]
fn token_shapes_carry_their_fields() {
    let constants = Constants { name: "Test token".to_string(), symbol: "TST".to_string(), decimals: 6 };
    assert_eq!(constants.decimals, 6);
    let q = TokenQueryMsg::Balance { address: "alice_key".to_string() };
    assert_eq!(q, TokenQueryMsg::Balance { address: "alice_key".to_string() });
    assert_eq!(BalanceResponse { balance: 7 }.balance, 7);
}
