use market_settlement::address::{CanonicalAddr, HumanAddr};
use market_settlement::asset::Coin;
use market_settlement::command::{Command, LogRecord};
use market_settlement::deposit::{deposit_is_defined, deposit_stable, received_deposit};
use market_settlement::error::ContractError;
use market_settlement::number::{Decimal256, Uint256};
use market_settlement::state::{Config, State};
use std::str::FromStr;

fn dec(text: &str) -> Decimal256 {
    let parsed = cosmwasm_bignumber::Decimal256::from_str(text).unwrap();
    Decimal256 { words: (parsed.0).0 }
}

fn uint(value: u128) -> Uint256 {
    Uint256::from_u128(value)
}

fn config() -> Config {
    Config {
        contract_addr: CanonicalAddr { bytes: vec![1, 2, 3] },
        aterra_contract: CanonicalAddr { bytes: vec![9, 8, 7, 6] },
        stable_denom: String::from("uusd"),
    }
}

fn ledger(liabilities: &str, reserves: &str, supply: u128) -> State {
    State {
        total_liabilities: dec(liabilities),
        total_reserves: dec(reserves),
        last_interest_updated: 42,
        prev_aterra_supply: uint(supply),
    }
}

fn coin(denom: &str, amount: u128) -> Coin {
    Coin { denom: String::from(denom), amount }
}

fn alice() -> HumanAddr {
    HumanAddr { text: String::from("alice") }
}

#[test]
fn first_deposit_mints_one_for_one() {
    // The pool is empty; the measured balance already holds the deposit.
    let mut state = State::new(0);
    let funds = vec![coin("uusd", 1_000_000)];
    assert!(deposit_is_defined(&config(), &state, &funds, uint(0), uint(1_000_000)));
    let response =
        deposit_stable(&config(), &mut state, alice(), &funds, uint(0), uint(1_000_000)).unwrap();
    assert_eq!(state.prev_aterra_supply, uint(1_000_000));
    assert_eq!(
        response.commands,
        vec![Command::Mint {
            token_contract: CanonicalAddr { bytes: vec![9, 8, 7, 6] },
            recipient: alice(),
            amount: 1_000_000,
        }]
    );
    assert_eq!(
        response.log,
        LogRecord::Deposit {
            depositor: alice(),
            mint_amount: uint(1_000_000),
            deposit_amount: uint(1_000_000),
        }
    );
}

#[test]
fn deposit_at_a_rate_below_one_mints_more_than_was_paid() {
    // Rate (900,000 + 100,000 - 10,000) / 1,000,000 = 0.99; 99 / 0.99 = 100.
    let mut state = ledger("100000", "10000", 1_000_000);
    let funds = vec![coin("uusd", 99)];
    assert!(deposit_is_defined(&config(), &state, &funds, uint(1_000_000), uint(900_099)));
    let response =
        deposit_stable(&config(), &mut state, alice(), &funds, uint(1_000_000), uint(900_099))
            .unwrap();
    assert_eq!(state.prev_aterra_supply, uint(1_000_100));
    assert_eq!(state.total_liabilities, dec("100000"));
    assert_eq!(state.total_reserves, dec("10000"));
    assert_eq!(state.last_interest_updated, 42);
    assert_eq!(response.commands.len(), 1);
    match &response.commands[0] {
        Command::Mint { amount, recipient, .. } => {
            assert_eq!(*amount, 100);
            assert_eq!(recipient, &alice());
        },
        other => panic!("expected a mint, got {:?}", other),
    }
    assert_eq!(
        response.log,
        LogRecord::Deposit { depositor: alice(), mint_amount: uint(100), deposit_amount: uint(99) }
    );
}

#[test]
fn minted_amount_is_rounded_down() {
    // Rate 1.25: 10 / 1.25 = 8; 11 / 1.25 = 8.8 -> 8; 4 / 1.25 = 3.2 -> 3.
    for (paid, minted) in [(10u128, 8u128), (11, 8), (4, 3), (1, 0), (1_000_001, 800_000)] {
        let mut state = ledger("600000", "50000", 1_000_000);
        let funds = vec![coin("uusd", paid)];
        let balance = uint(700_000 + paid);
        let response =
            deposit_stable(&config(), &mut state, alice(), &funds, uint(1_000_000), balance)
                .unwrap();
        assert_eq!(state.prev_aterra_supply, uint(1_000_000 + minted));
        assert_eq!(
            response.log,
            LogRecord::Deposit {
                depositor: alice(),
                mint_amount: uint(minted),
                deposit_amount: uint(paid),
            }
        );
    }
}

#[test]
fn deposit_does_not_raise_its_own_price() {
    // Priced with the deposit in the balance, 500,000 would buy fewer tokens.
    let mut state = ledger("0", "0", 1_000_000);
    let funds = vec![coin("uusd", 500_000)];
    let response =
        deposit_stable(&config(), &mut state, alice(), &funds, uint(1_000_000), uint(1_500_000))
            .unwrap();
    assert_eq!(state.prev_aterra_supply, uint(1_500_000));
    assert_eq!(
        response.commands,
        vec![Command::Mint {
            token_contract: config().aterra_contract,
            recipient: alice(),
            amount: 500_000,
        }]
    );
}

#[test]
fn deposit_of_zero_is_refused() {
    let mut state = ledger("100000", "10000", 1_000_000);
    let before = state;
    let funds = vec![coin("uusd", 0)];
    assert!(deposit_is_defined(&config(), &state, &funds, uint(1_000_000), uint(900_000)));
    let refused =
        deposit_stable(&config(), &mut state, alice(), &funds, uint(1_000_000), uint(900_000));
    assert_eq!(refused, Err(ContractError::InvalidInput { denom: String::from("uusd") }));
    assert_eq!(state, before);
}

#[test]
fn deposit_without_funds_is_refused() {
    let mut state = State::new(7);
    let refused = deposit_stable(&config(), &mut state, alice(), &vec![], uint(0), uint(0));
    assert_eq!(refused, Err(ContractError::InvalidInput { denom: String::from("uusd") }));
    assert_eq!(state, State::new(7));
}

#[test]
fn deposit_of_other_denominations_is_refused() {
    let mut state = ledger("100000", "10000", 1_000_000);
    let before = state;
    let funds = vec![coin("ukrw", 5_000), coin("uluna", 1), coin("UUSD", 77), coin("uusd ", 3)];
    let refused =
        deposit_stable(&config(), &mut state, alice(), &funds, uint(1_000_000), uint(900_000));
    assert_eq!(refused, Err(ContractError::InvalidInput { denom: String::from("uusd") }));
    assert_eq!(state, before);
}

#[test]
fn invalid_input_names_the_base_asset() {
    let refused = ContractError::InvalidInput { denom: String::from("uusd") };
    assert_eq!(refused.message(), "Deposit amount must be greater than 0 uusd");
}

#[test]
fn the_first_coin_of_the_base_asset_is_the_deposit() {
    let funds = vec![coin("ukrw", 5), coin("uusd", 30), coin("uusd", 400)];
    assert_eq!(received_deposit(&config(), &funds), uint(30));
    let zero_first = vec![coin("uusd", 0), coin("uusd", 400)];
    assert_eq!(received_deposit(&config(), &zero_first), uint(0));
    assert_eq!(received_deposit(&config(), &vec![]), uint(0));
    assert_eq!(received_deposit(&config(), &vec![coin("uluna", 9)]), uint(0));
    assert_eq!(received_deposit(&config(), &vec![coin("uusd", u128::MAX)]), uint(u128::MAX));
}

#[test]
fn a_zero_first_coin_of_the_base_asset_makes_the_call_invalid() {
    let mut state = State::new(0);
    let funds = vec![coin("uusd", 0), coin("uusd", 400)];
    let refused = deposit_stable(&config(), &mut state, alice(), &funds, uint(0), uint(400));
    assert_eq!(refused, Err(ContractError::InvalidInput { denom: String::from("uusd") }));
}

#[test]
fn deposit_is_undefined_where_the_balance_lacks_the_deposit() {
    let state = ledger("0", "0", 10);
    let funds = vec![coin("uusd", 100)];
    assert!(!deposit_is_defined(&config(), &state, &funds, uint(10), uint(99)));
    assert!(deposit_is_defined(&config(), &state, &funds, uint(10), uint(110)));
}

#[test]
fn deposit_is_undefined_at_a_rate_of_zero() {
    // Tokens are outstanding but the pool holds nothing for them.
    let state = ledger("0", "0", 10);
    let funds = vec![coin("uusd", 100)];
    assert!(!deposit_is_defined(&config(), &state, &funds, uint(10), uint(100)));
}

#[test]
fn deposit_is_undefined_where_the_price_is() {
    let state = ledger("0", "5", 10);
    let funds = vec![coin("uusd", 100)];
    // Net assets would be 4 - 5.
    assert!(!deposit_is_defined(&config(), &state, &funds, uint(10), uint(104)));
    assert!(deposit_is_defined(&config(), &state, &funds, uint(10), uint(106)));
}

#[test]
fn deposit_is_undefined_where_the_minted_amount_passes_128_bits() {
    // Rate 0.5 doubles the deposit.
    let state = ledger("0", "0", 2);
    let at_the_edge = vec![coin("uusd", u128::MAX / 2)];
    let balance = uint(u128::MAX / 2 + 1);
    assert!(deposit_is_defined(&config(), &state, &at_the_edge, uint(2), balance));
    let beyond = vec![coin("uusd", u128::MAX / 2 + 1)];
    let balance = uint(u128::MAX / 2 + 2);
    assert!(!deposit_is_defined(&config(), &state, &beyond, uint(2), balance));
}

#[test]
fn deposit_is_undefined_where_the_followed_supply_would_pass_256_bits() {
    let top = Uint256::max_value();
    let nearly = Uint256 { words: [top.words[0] - 5, top.words[1], top.words[2], top.words[3]] };
    let state = State { prev_aterra_supply: nearly, ..State::new(0) };
    assert!(deposit_is_defined(&config(), &state, &vec![coin("uusd", 5)], uint(0), uint(5)));
    assert!(!deposit_is_defined(&config(), &state, &vec![coin("uusd", 6)], uint(0), uint(6)));
    let mut state = state;
    deposit_stable(&config(), &mut state, alice(), &vec![coin("uusd", 5)], uint(0), uint(5))
        .unwrap();
    assert_eq!(state.prev_aterra_supply, top);
}
