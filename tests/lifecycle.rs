use polkadot::account::AccountId;
use polkadot::bridge::{bridge_record, encode_bridge_record, BridgeStore};
use polkadot::error::Error;
use polkadot::hasher::identifier_of;
use polkadot::intent::{encode_intent, new_intent, ExecutionMode, Intent, IntentBook, IntentType};
use polkadot::liquidity::LiquidityBook;

fn account(b: u8) -> AccountId {
    AccountId::from([b; 32])
}

#[test]
fn identifier_is_blake2b_256_digest() {
    let empty: Vec<u8> = Vec::new();
    let expected: [u8; 32] = [
        0x0e, 0x57, 0x51, 0xc0, 0x26, 0xe5, 0x43, 0xb2, 0xe8, 0xab, 0x2e, 0xb0, 0x60, 0x99,
        0xda, 0xa1, 0xd1, 0xe5, 0xdf, 0x47, 0x77, 0x8f, 0x77, 0x87, 0xfa, 0xab, 0x45, 0xcd,
        0xf1, 0x2f, 0xe3, 0xa8,
    ];
    assert_eq!(identifier_of(&empty), expected);
    let bytes = vec![7u8; 32];
    assert_ne!(identifier_of(&bytes).to_vec(), bytes);
}

#[test]
fn intent_timeout_is_minutes_after_now() {
    let i = new_intent(account(1), IntentType::Swap, 5, 2, None, None, None, 1_000);
    assert_eq!(i.timeout, 121_000);
    assert!(!i.executed);
    let capped = new_intent(account(1), IntentType::Stake, 5, u64::MAX, None, None, None, 1);
    assert_eq!(capped.timeout, u64::MAX);
}

#[test]
fn intent_encoding_layout() {
    let i = Intent {
        intent_type: IntentType::RemoveLiquidity,
        creator: account(0xaa),
        amount: 0x0102,
        timeout: 0x0304,
        executed: true,
        target_token: None,
        min_amount_out: Some(9),
        execution_mode: Some(ExecutionMode::Secure),
    };
    let mut expected = vec![3u8];
    expected.extend_from_slice(&[0xaa; 32]);
    expected.extend_from_slice(&0x0102u128.to_le_bytes());
    expected.extend_from_slice(&0x0304u64.to_le_bytes());
    expected.push(1);
    expected.push(0);
    expected.push(1);
    expected.extend_from_slice(&9u128.to_le_bytes());
    expected.push(1);
    expected.push(2);
    assert_eq!(encode_intent(&i), expected);
}

#[test]
fn intent_executes_once() {
    let mut book = IntentBook::new();
    let id = book.create_intent(
        account(1),
        IntentType::Swap,
        100,
        10,
        Some(account(2)),
        Some(90),
        Some(ExecutionMode::Fast),
        1_000,
    );
    let stored = book.get_intent(&id).unwrap();
    assert_eq!(id, identifier_of(&encode_intent(&stored)));
    assert_eq!(book.execute_intent(&id, 2_000), Ok(()));
    assert!(book.get_intent(&id).unwrap().executed);
    assert_eq!(book.execute_intent(&id, 2_000), Err(Error::IntentAlreadyExecuted));
    assert_eq!(book.execute_intent(&id, 3_000), Err(Error::IntentAlreadyExecuted));
}

#[test]
fn expired_intent_stays_unexecuted() {
    let mut book = IntentBook::new();
    let id = book.create_intent(account(1), IntentType::Bridge, 1, 1, None, None, None, 0);
    assert_eq!(book.execute_intent(&id, 60_001), Err(Error::IntentExpired));
    assert_eq!(book.execute_intent(&id, 90_000), Err(Error::IntentExpired));
    assert!(!book.get_intent(&id).unwrap().executed);
}

#[test]
fn intent_at_its_timeout_still_executes() {
    let mut book = IntentBook::new();
    let id = book.create_intent(account(1), IntentType::Stake, 1, 1, None, None, None, 0);
    assert_eq!(book.execute_intent(&id, 60_000), Ok(()));
}

#[test]
fn unknown_intent_is_not_found() {
    let mut book = IntentBook::new();
    assert_eq!(book.execute_intent(&[0u8; 32], 0), Err(Error::IntentNotFound));
    assert_eq!(book.get_intent(&[0u8; 32]), None);
}

#[test]
fn identical_intents_share_identifier() {
    let mut book = IntentBook::new();
    let a = book.create_intent(account(1), IntentType::Swap, 5, 1, None, None, None, 10);
    let b = book.create_intent(account(1), IntentType::Swap, 5, 1, None, None, None, 10);
    let c = book.create_intent(account(1), IntentType::Swap, 6, 1, None, None, None, 10);
    assert_eq!(a, b);
    assert_ne!(a, c);
}

#[test]
fn bridge_record_is_stored_under_its_identifier() {
    let mut store = BridgeStore::new();
    let id = store.bridge_tokens(String::from("ethereum"), 500, String::from("0xabc"));
    let rec = store.get_bridge_record(&id).unwrap();
    assert_eq!(rec.from_chain, "polkadot");
    assert_eq!(rec.to_chain, "ethereum");
    assert_eq!(rec.amount, 500);
    assert_eq!(rec.recipient, "0xabc");
    assert_eq!(id, identifier_of(&encode_bridge_record(&rec)));
    assert_eq!(store.get_bridge_record(&[1u8; 32]), None);
}

#[test]
fn bridge_encoding_layout() {
    let rec = bridge_record(String::from("é"), 1, String::new());
    let mut expected = Vec::new();
    expected.extend_from_slice(&8u64.to_le_bytes());
    expected.extend_from_slice(b"polkadot");
    expected.extend_from_slice(&2u64.to_le_bytes());
    expected.extend_from_slice(&[0xc3, 0xa9]);
    expected.extend_from_slice(&1u128.to_le_bytes());
    expected.extend_from_slice(&0u64.to_le_bytes());
    assert_eq!(encode_bridge_record(&rec), expected);
}

#[test]
fn empty_chain_labels_are_accepted() {
    let mut store = BridgeStore::new();
    let id = store.bridge_tokens(String::new(), 0, String::new());
    assert_eq!(store.get_bridge_record(&id).unwrap().to_chain, "");
}

#[test]
fn liquidity_add_then_remove_round_trips() {
    let mut book = LiquidityBook::new();
    let (p, t) = (account(1), account(2));
    assert_eq!(book.add_liquidity(&p, &t, 70), Ok(()));
    assert_eq!(book.add_liquidity(&p, &t, 30), Ok(()));
    assert_eq!(book.liquidity_of(&p, &t), 100);
    assert_eq!(book.remove_liquidity(&p, &t, 30), Ok(()));
    assert_eq!(book.liquidity_of(&p, &t), 70);
    assert_eq!(book.liquidity_of(&t, &p), 0);
}

#[test]
fn liquidity_removal_is_bounded() {
    let mut book = LiquidityBook::new();
    let (p, t) = (account(1), account(2));
    assert_eq!(book.add_liquidity(&p, &t, 10), Ok(()));
    assert_eq!(book.remove_liquidity(&p, &t, 11), Err(Error::InsufficientBalance));
    assert_eq!(book.liquidity_of(&p, &t), 10);
    assert_eq!(book.remove_liquidity(&p, &t, 10), Ok(()));
    assert_eq!(book.liquidity_of(&p, &t), 0);
    assert_eq!(book.remove_liquidity(&p, &account(3), 1), Err(Error::InsufficientBalance));
}

#[test]
fn liquidity_overflow_is_rejected() {
    let mut book = LiquidityBook::new();
    let (p, t) = (account(1), account(2));
    assert_eq!(book.add_liquidity(&p, &t, u128::MAX), Ok(()));
    assert_eq!(book.add_liquidity(&p, &t, 1), Err(Error::InvalidParameters));
    assert_eq!(book.liquidity_of(&p, &t), u128::MAX);
}
