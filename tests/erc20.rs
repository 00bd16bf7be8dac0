use polkadot::account::AccountId;
use polkadot::error::Error;
use polkadot::events::{Event, Transfer};
use polkadot::polkadot::Polkadot;

fn alice() -> AccountId {
    AccountId::from([0x01; 32])
}

fn bob() -> AccountId {
    AccountId::from([0x02; 32])
}

fn charlie() -> AccountId {
    AccountId::from([0x03; 32])
}

fn eve() -> AccountId {
    AccountId::from([0x05; 32])
}

fn with_supply(owner: AccountId, supply: u128) -> Polkadot {
    let mut p = Polkadot::new();
    assert_eq!(
        p.create_erc20(owner, String::from("Token"), String::from("TKN"), 18, supply),
        Ok(())
    );
    p
}

fn transfer_event(from: Option<AccountId>, to: Option<AccountId>, value: u128) -> Event {
    Event::Transfer(Transfer { from, to, value })
}

#[test]
fn new_works() {
    let p = with_supply(alice(), 100);
    let events = p.events();
    assert_eq!(1, events.len());
    assert_eq!(events[0], transfer_event(None, Some(AccountId::from([0x01; 32])), 100));
}

#[test]
fn total_supply_works() {
    let p = with_supply(alice(), 100);
    assert_eq!(p.events()[0], transfer_event(None, Some(AccountId::from([0x01; 32])), 100));
    assert_eq!(p.total_supply(), 100);
}

#[test]
fn balance_of_works() {
    let p = with_supply(alice(), 100);
    assert_eq!(p.events()[0], transfer_event(None, Some(AccountId::from([0x01; 32])), 100));
    assert_eq!(p.balance_of(alice()), 100);
    assert_eq!(p.balance_of(bob()), 0);
}

#[test]
fn transfer_works() {
    let mut p = with_supply(alice(), 100);
    assert_eq!(p.balance_of(bob()), 0);
    assert_eq!(p.transfer(alice(), bob(), 10), Ok(()));
    assert_eq!(p.balance_of(bob()), 10);
    let events = p.events();
    assert_eq!(events.len(), 2);
    assert_eq!(events[0], transfer_event(None, Some(AccountId::from([0x01; 32])), 100));
    assert_eq!(
        events[1],
        transfer_event(
            Some(AccountId::from([0x01; 32])),
            Some(AccountId::from([0x02; 32])),
            10
        )
    );
}

#[test]
fn invalid_transfer_should_fail() {
    let mut p = with_supply(alice(), 100);
    assert_eq!(p.balance_of(bob()), 0);
    assert_eq!(p.transfer(bob(), eve(), 10), Err(Error::InsufficientBalance));
    assert_eq!(p.balance_of(alice()), 100);
    assert_eq!(p.balance_of(bob()), 0);
    assert_eq!(p.balance_of(eve()), 0);
    let events = p.events();
    assert_eq!(events.len(), 1);
    assert_eq!(events[0], transfer_event(None, Some(AccountId::from([0x01; 32])), 100));
}

#[test]
fn transfer_from_works() {
    let mut p = with_supply(alice(), 100);
    assert_eq!(
        p.transfer_from(bob(), alice(), eve(), 10),
        Err(Error::InsufficientAllowance)
    );
    assert_eq!(p.approve(alice(), bob(), 10), Ok(()));
    assert_eq!(p.events().len(), 2);
    assert_eq!(p.transfer_from(bob(), alice(), eve(), 10), Ok(()));
    assert_eq!(p.balance_of(eve()), 10);
    let events = p.events();
    assert_eq!(events.len(), 3);
    assert_eq!(events[0], transfer_event(None, Some(AccountId::from([0x01; 32])), 100));
    assert_eq!(
        events[2],
        transfer_event(
            Some(AccountId::from([0x01; 32])),
            Some(AccountId::from([0x05; 32])),
            10
        )
    );
}

#[test]
fn allowance_must_not_change_on_failed_transfer() {
    let mut p = with_supply(alice(), 100);
    let alice_balance = p.balance_of(alice());
    let initial_allowance = alice_balance + 2;
    assert_eq!(p.approve(alice(), bob(), initial_allowance), Ok(()));
    let emitted_events_before = p.events().len();
    assert_eq!(
        p.transfer_from(bob(), alice(), eve(), alice_balance + 1),
        Err(Error::InsufficientBalance)
    );
    assert_eq!(p.allowance(alice(), bob()), initial_allowance);
    assert_eq!(emitted_events_before, p.events().len());
}

#[test]
fn e2e_transfer() {
    let total_supply = 1_000_000_000;
    let mut p = with_supply(alice(), total_supply);
    let total_supply_res = p.total_supply();
    let transfer_to_bob = 500_000_000u128;
    p.transfer(alice(), bob(), transfer_to_bob).expect("transfer failed");
    let balance_of_res = p.balance_of(bob());
    assert_eq!(total_supply, total_supply_res, "total_supply");
    assert_eq!(transfer_to_bob, balance_of_res, "balance_of");
}

#[test]
fn e2e_allowances() {
    let total_supply = 1_000_000_000;
    let mut p = with_supply(bob(), total_supply);
    let amount = 500_000_000u128;
    let transfer_from_result = p.transfer_from(charlie(), bob(), charlie(), amount);
    assert!(transfer_from_result.is_err(), "unapproved transfer_from should fail");
    let approved_value = 1_000u128;
    p.approve(bob(), charlie(), approved_value).expect("approve failed");
    let transfer_from_result = p.transfer_from(charlie(), bob(), charlie(), approved_value);
    assert!(transfer_from_result.is_ok(), "approved transfer_from should succeed");
    let balance_of_res = p.balance_of(bob());
    let transfer_from_result = p.transfer_from(charlie(), bob(), charlie(), 1);
    assert!(
        transfer_from_result.is_err(),
        "transfer_from exceeding the approved amount should fail"
    );
    assert_eq!(total_supply - approved_value, balance_of_res, "balance_of");
}

#[test]
fn balances_add_up_to_supply_after_transfers() {
    let mut p = with_supply(alice(), 1_000);
    assert_eq!(p.transfer(alice(), bob(), 300), Ok(()));
    assert_eq!(p.approve(bob(), charlie(), 200), Ok(()));
    assert_eq!(p.transfer_from(charlie(), bob(), eve(), 150), Ok(()));
    assert_eq!(p.transfer(eve(), eve(), 150), Ok(()));
    assert_eq!(p.transfer(bob(), alice(), 151), Err(Error::InsufficientBalance));
    let sum = p.balance_of(alice()) + p.balance_of(bob()) + p.balance_of(charlie())
        + p.balance_of(eve());
    assert_eq!(sum, p.total_supply());
    assert_eq!(p.balance_of(alice()), 700);
    assert_eq!(p.balance_of(bob()), 150);
    assert_eq!(p.balance_of(eve()), 150);
    assert_eq!(p.allowance(bob(), charlie()), 50);
}

#[test]
fn failed_transfer_from_keeps_allowance() {
    let mut p = with_supply(alice(), 100);
    assert_eq!(p.approve(alice(), bob(), 102), Ok(()));
    assert_eq!(
        p.transfer_from(bob(), alice(), charlie(), 101),
        Err(Error::InsufficientBalance)
    );
    assert_eq!(p.allowance(alice(), bob()), 102);
    assert_eq!(
        p.transfer_from(bob(), alice(), charlie(), 103),
        Err(Error::InsufficientAllowance)
    );
    assert_eq!(p.allowance(alice(), bob()), 102);
    assert_eq!(p.balance_of(alice()), 100);
}

#[test]
fn approve_overwrites_allowance() {
    let mut p = with_supply(alice(), 100);
    assert_eq!(p.approve(alice(), bob(), 50), Ok(()));
    assert_eq!(p.approve(alice(), bob(), 7), Ok(()));
    assert_eq!(p.allowance(alice(), bob()), 7);
    assert_eq!(p.allowance(bob(), alice()), 0);
}

#[test]
fn transfer_of_largest_supply() {
    let mut p = with_supply(alice(), u128::MAX);
    assert_eq!(p.transfer(alice(), bob(), u128::MAX), Ok(()));
    assert_eq!(p.balance_of(bob()), u128::MAX);
    assert_eq!(p.balance_of(alice()), 0);
    assert_eq!(p.transfer(bob(), alice(), 0), Ok(()));
}

#[test]
fn second_creation_replaces_balances() {
    let mut p = with_supply(alice(), 100);
    assert_eq!(p.transfer(alice(), bob(), 40), Ok(()));
    assert_eq!(p.approve(alice(), bob(), 5), Ok(()));
    assert_eq!(
        p.create_erc20(charlie(), String::from("Other"), String::from("OTH"), 6, 10),
        Ok(())
    );
    assert_eq!(p.total_supply(), 10);
    assert_eq!(p.balance_of(charlie()), 10);
    assert_eq!(p.balance_of(alice()), 0);
    assert_eq!(p.balance_of(bob()), 0);
    assert_eq!(p.allowance(alice(), bob()), 5);
}

#[test]
fn clear_events_empties_log() {
    let mut p = with_supply(alice(), 100);
    p.clear_events();
    assert_eq!(p.events().len(), 0);
    assert_eq!(p.balance_of(alice()), 100);
}
