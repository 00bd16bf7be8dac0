use polkadot::account::AccountId;
use polkadot::error::Error;
use polkadot::events::{Event, NFTApproval, NFTTransfer};
use polkadot::polkadot::Polkadot;

fn account(b: u8) -> AccountId {
    AccountId::from([b; 32])
}

#[test]
fn mint_and_ownership_round_trip() {
    let mut p = Polkadot::new();
    let x = account(0x58);
    assert_eq!(p.create_erc721(String::from("Art"), String::from("ART")), Ok(()));
    assert_eq!(p.mint_nft(x, String::from("ipfs://a")), Ok(0));
    assert_eq!(p.owner_of(0), Ok(x));
    assert_eq!(p.token_uri(0), Ok(String::from("ipfs://a")));
    assert_eq!(p.mint_nft(account(9), String::from("ipfs://b")), Ok(1));
    assert_eq!(p.owner_of(0), Ok(x));
    assert_eq!(p.token_uri(0), Ok(String::from("ipfs://a")));
    assert_eq!(p.owner_of(1), Ok(account(9)));
    assert_eq!(p.token_uri(1), Ok(String::from("ipfs://b")));
    assert_eq!(p.tokens_of_owner(x), vec![0]);
    assert_eq!(
        p.events()[0],
        Event::NFTTransfer(NFTTransfer { from: None, to: Some(x), token_id: 0 })
    );
}

#[test]
fn mint_with_empty_uri_fails() {
    let mut p = Polkadot::new();
    assert_eq!(p.mint_nft(account(1), String::new()), Err(Error::InvalidTokenURI));
    assert_eq!(p.owner_of(0), Err(Error::TokenNotFound));
    assert_eq!(p.events().len(), 0);
    assert_eq!(p.mint_nft(account(1), String::from("u")), Ok(0));
}

#[test]
fn missing_token_is_not_found() {
    let p = Polkadot::new();
    assert_eq!(p.owner_of(3), Err(Error::TokenNotFound));
    assert_eq!(p.token_uri(3), Err(Error::TokenNotFound));
    assert_eq!(p.get_approved(3), None);
}

#[test]
fn owner_approves_token() {
    let mut p = Polkadot::new();
    let owner = account(1);
    assert_eq!(p.mint_nft(owner, String::from("ipfs://a")), Ok(0));
    assert_eq!(p.get_approved(0), None);
    assert_eq!(p.approve_nft(owner, account(2), 0), Ok(()));
    assert_eq!(p.get_approved(0), Some(account(2)));
    assert_eq!(
        p.events()[1],
        Event::NFTApproval(NFTApproval { owner, approved: account(2), token_id: 0 })
    );
    assert_eq!(p.approve_nft(owner, account(3), 0), Ok(()));
    assert_eq!(p.get_approved(0), Some(account(3)));
}

#[test]
fn approval_by_non_owner_is_isolated() {
    let mut p = Polkadot::new();
    let owner = account(1);
    assert_eq!(p.mint_nft(owner, String::from("ipfs://a")), Ok(0));
    assert_eq!(p.approve_nft(owner, account(2), 0), Ok(()));
    let before = p.events().len();
    assert_eq!(p.approve_nft(account(4), account(4), 0), Err(Error::NotTokenOwner));
    assert_eq!(p.get_approved(0), Some(account(2)));
    assert_eq!(p.events().len(), before);
    assert_eq!(p.approve_nft(owner, account(2), 7), Err(Error::TokenNotFound));
}

#[test]
fn operator_approval_round_trips() {
    let mut p = Polkadot::new();
    let owner = account(1);
    let operator = account(2);
    assert!(!p.is_approved_for_all(owner, operator));
    assert_eq!(p.set_approval_for_all(owner, operator, true), Ok(()));
    assert!(p.is_approved_for_all(owner, operator));
    assert!(!p.is_approved_for_all(operator, owner));
    assert_eq!(p.set_approval_for_all(owner, operator, false), Ok(()));
    assert!(!p.is_approved_for_all(owner, operator));
}

#[test]
fn collection_creation_keeps_ids() {
    let mut p = Polkadot::new();
    assert_eq!(p.mint_nft(account(1), String::from("a")), Ok(0));
    assert_eq!(p.create_erc721(String::from("New"), String::from("NEW")), Ok(()));
    assert_eq!(p.mint_nft(account(2), String::from("b")), Ok(1));
    assert_eq!(p.owner_of(0), Ok(account(1)));
    assert_eq!(p.tokens_of_owner(account(2)), vec![1]);
}
