use vstd::prelude::*;

use crate::account::AccountId;
use crate::error::Error;
use crate::events::{Approval, Event, NFTApproval, NFTTransfer, Transfer};
use crate::fungible::FungibleLedger;
use crate::nft::NftLedger;

verus! {

/// A fungible token and a non-fungible token collection, with the notifications
/// their operations raised.
///
/// The account that invokes an operation is handed in as `caller`.
pub struct Polkadot {
    name: String,
    symbol: String,
    decimals: u8,
    ledger: FungibleLedger,
    nft_name: String,
    nft_symbol: String,
    nfts: NftLedger,
    events: Vec<Event>,
}

/// The cosmetic descriptions of both tokens.
pub struct Metadata {
    pub name: Seq<char>,
    pub symbol: Seq<char>,
    pub decimals: u8,
    pub nft_name: Seq<char>,
    pub nft_symbol: Seq<char>,
}

impl Polkadot {
    /// Balances and allowances of the fungible token.
    pub closed spec fn ledger(&self) -> FungibleLedger {
        self.ledger
    }

    /// The non-fungible token collection.
    pub closed spec fn nfts(&self) -> NftLedger {
        self.nfts
    }

    /// The notifications raised so far, oldest first.
    pub closed spec fn log(&self) -> Seq<Event> {
        self.events@
    }

    pub closed spec fn metadata(&self) -> Metadata {
        Metadata {
            name: self.name@,
            symbol: self.symbol@,
            decimals: self.decimals,
            nft_name: self.nft_name@,
            nft_symbol: self.nft_symbol@,
        }
    }

    /// Both ledgers keep their invariants; in particular the balances add up to
    /// the total supply.
    pub open spec fn wf(&self) -> bool {
        self.ledger().wf() && self.nfts().wf()
    }

    /// Only the fungible ledger and the log may differ between `self` and `before`.
    pub open spec fn keeps_nfts(&self, before: &Polkadot) -> bool {
        self.nfts() == before.nfts() && self.metadata() == before.metadata()
    }

    /// Only the collection and the log may differ between `self` and `before`.
    pub open spec fn keeps_ledger(&self, before: &Polkadot) -> bool {
        self.ledger() == before.ledger() && self.metadata() == before.metadata()
    }

    /// No tokens, no collection, no notifications.
    pub fn new() -> (p: Polkadot)
        ensures
            p.wf(),
            p.ledger().supply() == 0,
            forall|a: AccountId| #[trigger] p.ledger().balance(a) == 0,
            forall|o: AccountId, s: AccountId| #[trigger] p.ledger().allowed(o, s) == 0,
            p.nfts().count() == 0,
            p.log() == Seq::<Event>::empty(),
    {
        Polkadot {
            name: String::new(),
            symbol: String::new(),
            decimals: 0,
            ledger: FungibleLedger::new(),
            nft_name: String::new(),
            nft_symbol: String::new(),
            nfts: NftLedger::new(),
            events: Vec::new(),
        }
    }

    /// Creates the fungible token: records its description and credits the whole
    /// `initial_supply` to `caller`, which then holds every token.
    pub fn create_erc20(
        &mut self,
        caller: AccountId,
        name: String,
        symbol: String,
        decimals: u8,
        initial_supply: u128,
    ) -> (r: Result<(), Error>)
        requires
            old(self).wf(),
        ensures
            r is Ok,
            final(self).wf(),
            final(self).ledger().supply() == initial_supply,
            final(self).ledger().balance(caller) == initial_supply,
            forall|a: AccountId| a != caller ==> #[trigger] final(self).ledger().balance(a) == 0,
            forall|o: AccountId, s: AccountId| #[trigger]
                final(self).ledger().allowed(o, s) == old(self).ledger().allowed(o, s),
            final(self).nfts() == old(self).nfts(),
            final(self).metadata().name == name@,
            final(self).metadata().symbol == symbol@,
            final(self).metadata().decimals == decimals,
            final(self).metadata().nft_name == old(self).metadata().nft_name,
            final(self).metadata().nft_symbol == old(self).metadata().nft_symbol,
            final(self).log() == old(self).log().push(
                Event::Transfer(Transfer { from: None, to: Some(caller), value: initial_supply }),
            ),
    {
        self.name = name;
        self.symbol = symbol;
        self.decimals = decimals;
        self.ledger.reset_supply(caller, initial_supply);
        self.events.push(
            Event::Transfer(Transfer { from: None, to: Some(caller), value: initial_supply }),
        );
        Ok(())
    }

    /// Records the description of the token collection. Tokens already minted
    /// keep their ids: an id is never assigned twice.
    pub fn create_erc721(&mut self, name: String, symbol: String) -> (r: Result<(), Error>)
        requires
            old(self).wf(),
        ensures
            r is Ok,
            final(self).wf(),
            final(self).ledger() == old(self).ledger(),
            final(self).nfts() == old(self).nfts(),
            final(self).log() == old(self).log(),
            final(self).metadata().nft_name == name@,
            final(self).metadata().nft_symbol == symbol@,
            final(self).metadata().name == old(self).metadata().name,
            final(self).metadata().symbol == old(self).metadata().symbol,
            final(self).metadata().decimals == old(self).metadata().decimals,
    {
        self.nft_name = name;
        self.nft_symbol = symbol;
        Ok(())
    }

    /// The owner of token `token_id`; `TokenNotFound` when it does not exist.
    pub fn owner_of(&self, token_id: u32) -> (r: Result<AccountId, Error>)
        requires
            self.wf(),
        ensures
            self.nfts().minted(token_id) ==> r == Ok::<AccountId, Error>(
                self.nfts().owner(token_id),
            ),
            !self.nfts().minted(token_id) ==> r == Err::<AccountId, Error>(Error::TokenNotFound),
    {
        self.nfts.owner_of(token_id)
    }

    /// Lets `to` move token `token_id` of `caller`, replacing any earlier approval
    /// of that token.
    ///
    /// Fails with `TokenNotFound` when the token does not exist, else with
    /// `NotTokenOwner` when `caller` does not own it; a failure changes nothing.
    pub fn approve_nft(&mut self, caller: AccountId, to: AccountId, token_id: u32) -> (r: Result<
        (),
        Error,
    >)
        requires
            old(self).wf(),
        ensures
            final(self).wf(),
            !old(self).nfts().minted(token_id) ==> r == Err::<(), Error>(Error::TokenNotFound),
            old(self).nfts().minted(token_id) && old(self).nfts().owner(token_id) != caller ==> r
                == Err::<(), Error>(Error::NotTokenOwner),
            r is Err ==> *final(self) == *old(self),
            r is Ok <==> old(self).nfts().minted(token_id) && old(self).nfts().owner(token_id)
                == caller,
            r is Ok ==> final(self).nfts().approved(token_id) == Some(to) && final(
            self).nfts().same_but_approval(&old(self).nfts(), token_id) && final(self).keeps_ledger(
            old(self)) && final(self).log() == old(self).log().push(
                Event::NFTApproval(NFTApproval { owner: caller, approved: to, token_id }),
            ),
    {
        match self.nfts.approve(&caller, &to, token_id) {
            Ok(()) => {},
            Err(e) => {
                return Err(e);
            },
        }
        self.events.push(Event::NFTApproval(NFTApproval { owner: caller, approved: to, token_id }));
        Ok(())
    }

    /// Records whether `operator` may manage all tokens of `caller`.
    pub fn set_approval_for_all(&mut self, caller: AccountId, operator: AccountId, approved: bool) -> (r:
        Result<(), Error>)
        requires
            old(self).wf(),
        ensures
            r is Ok,
            final(self).wf(),
            final(self).keeps_ledger(old(self)),
            final(self).log() == old(self).log(),
            final(self).nfts().count() == old(self).nfts().count(),
            forall|t: u32| #[trigger]
                final(self).nfts().minted(t) ==> final(self).nfts().owner(t) == old(
                self).nfts().owner(t) && final(self).nfts().uri(t) == old(self).nfts().uri(t)
                    && final(self).nfts().approved(t) == old(self).nfts().approved(t),
            forall|a: AccountId| #[trigger]
                final(self).nfts().tokens_of(a) == old(self).nfts().tokens_of(a),
            forall|o: AccountId, p: AccountId| #[trigger]
                final(self).nfts().operator(o, p) == if o == caller && p == operator {
                    approved
                } else {
                    old(self).nfts().operator(o, p)
                },
    {
        self.nfts.set_approval_for_all(&caller, &operator, approved);
        Ok(())
    }

    /// Mints a token with metadata `token_uri` to `to` and returns its id, the
    /// next in sequence.
    ///
    /// Fails with `InvalidTokenURI` when `token_uri` is empty, else with
    /// `TokenAlreadyMinted` when every id has been assigned; a failure changes
    /// nothing.
    pub fn mint_nft(&mut self, to: AccountId, token_uri: String) -> (r: Result<u32, Error>)
        requires
            old(self).wf(),
        ensures
            final(self).wf(),
            token_uri@.len() == 0 ==> r == Err::<u32, Error>(Error::InvalidTokenURI),
            token_uri@.len() > 0 && old(self).nfts().count() > crate::nft::MAX_TOKEN_ID ==> r
                == Err::<u32, Error>(Error::TokenAlreadyMinted),
            r is Err ==> *final(self) == *old(self),
            r is Ok <==> token_uri@.len() > 0 && old(self).nfts().count()
                <= crate::nft::MAX_TOKEN_ID,
            r matches Ok(id) ==> {
                &&& id == old(self).nfts().count()
                &&& final(self).nfts().count() == old(self).nfts().count() + 1
                &&& final(self).nfts().owner(id) == to
                &&& final(self).nfts().uri(id) == token_uri@
                &&& final(self).nfts().approved(id) == None::<AccountId>
                &&& forall|t: u32| #[trigger]
                    old(self).nfts().minted(t) ==> final(self).nfts().owner(t) == old(
                    self).nfts().owner(t) && final(self).nfts().uri(t) == old(self).nfts().uri(t)
                        && final(self).nfts().approved(t) == old(self).nfts().approved(t)
                &&& final(self).nfts().tokens_of(to) == old(self).nfts().tokens_of(to).push(id)
                &&& forall|a: AccountId|
                    a != to ==> #[trigger] final(self).nfts().tokens_of(a) == old(
                    self).nfts().tokens_of(a)
                &&& forall|o: AccountId, p: AccountId| #[trigger]
                    final(self).nfts().operator(o, p) == old(self).nfts().operator(o, p)
                &&& final(self).keeps_ledger(old(self))
                &&& final(self).log() == old(self).log().push(
                    Event::NFTTransfer(NFTTransfer { from: None, to: Some(to), token_id: id }),
                )
            },
    {
        let token_id = match self.nfts.mint(to, token_uri) {
            Ok(id) => id,
            Err(e) => {
                return Err(e);
            },
        };
        self.events.push(Event::NFTTransfer(NFTTransfer { from: None, to: Some(to), token_id }));
        Ok(token_id)
    }

    /// The metadata URI of token `token_id`; `TokenNotFound` when it does not
    /// exist.
    pub fn token_uri(&self, token_id: u32) -> (r: Result<String, Error>)
        requires
            self.wf(),
        ensures
            self.nfts().minted(token_id) ==> (r matches Ok(u) && u@ == self.nfts().uri(token_id)),
            !self.nfts().minted(token_id) ==> r == Err::<String, Error>(Error::TokenNotFound),
    {
        self.nfts.token_uri(token_id)
    }

    /// The account approved to move token `token_id`; `None` when there is none
    /// or the token does not exist.
    pub fn get_approved(&self, token_id: u32) -> (r: Option<AccountId>)
        requires
            self.wf(),
        ensures
            r == if self.nfts().minted(token_id) {
                self.nfts().approved(token_id)
            } else {
                None
            },
    {
        self.nfts.get_approved(token_id)
    }

    /// Whether `operator` may manage all tokens of `owner`.
    pub fn is_approved_for_all(&self, owner: AccountId, operator: AccountId) -> (r: bool)
        requires
            self.wf(),
        ensures
            r == self.nfts().operator(owner, operator),
    {
        self.nfts.is_approved_for_all(&owner, &operator)
    }

    /// The ids of the tokens minted to `owner`, in order of minting.
    pub fn tokens_of_owner(&self, owner: AccountId) -> (r: Vec<u32>)
        requires
            self.wf(),
        ensures
            r@ == self.nfts().tokens_of(owner),
    {
        self.nfts.tokens_of_owner(&owner)
    }

    /// The number of fungible tokens in existence.
    pub fn total_supply(&self) -> (r: u128)
        ensures
            r == self.ledger().supply(),
    {
        self.ledger.total_supply()
    }

    /// The balance of `owner`; zero for an unknown account.
    pub fn balance_of(&self, owner: AccountId) -> (r: u128)
        requires
            self.wf(),
        ensures
            r == self.ledger().balance(owner),
    {
        self.ledger.balance_of(&owner)
    }

    /// What `spender` may still withdraw from `owner`; zero where unset.
    pub fn allowance(&self, owner: AccountId, spender: AccountId) -> (r: u128)
        requires
            self.wf(),
        ensures
            r == self.ledger().allowed(owner, spender),
    {
        self.ledger.allowance(&owner, &spender)
    }

    /// Moves `value` tokens from `caller` to `to`.
    ///
    /// Fails with `InsufficientBalance`, changing nothing, when `caller` holds
    /// less than `value`. The balances keep adding up to the total supply.
    pub fn transfer(&mut self, caller: AccountId, to: AccountId, value: u128) -> (r: Result<
        (),
        Error,
    >)
        requires
            old(self).wf(),
        ensures
            final(self).wf(),
            final(self).ledger().balance_sum() == old(self).ledger().balance_sum(),
            final(self).ledger().balance_sum() == final(self).ledger().supply(),
            r is Ok <==> value <= old(self).ledger().balance(caller),
            r is Ok ==> final(self).ledger().is_move_of(&old(self).ledger(), caller, to, value)
                && final(self).keeps_nfts(old(self)) && final(self).log() == old(self).log().push(
                Event::Transfer(Transfer { from: Some(caller), to: Some(to), value }),
            ),
            r is Err ==> r == Err::<(), Error>(Error::InsufficientBalance) && *final(self)
                == *old(self),
    {
        match self.ledger.transfer(&caller, &to, value) {
            Ok(()) => {},
            Err(e) => {
                return Err(e);
            },
        }
        self.events.push(Event::Transfer(Transfer { from: Some(caller), to: Some(to), value }));
        Ok(())
    }

    /// Sets what `spender` may withdraw from `caller` to `value`, replacing any
    /// earlier allowance.
    pub fn approve(&mut self, caller: AccountId, spender: AccountId, value: u128) -> (r: Result<
        (),
        Error,
    >)
        requires
            old(self).wf(),
        ensures
            r is Ok,
            final(self).wf(),
            final(self).keeps_nfts(old(self)),
            final(self).ledger().supply() == old(self).ledger().supply(),
            forall|a: AccountId| #[trigger]
                final(self).ledger().balance(a) == old(self).ledger().balance(a),
            forall|o: AccountId, s: AccountId| #[trigger]
                final(self).ledger().allowed(o, s) == if o == caller && s == spender {
                    value as int
                } else {
                    old(self).ledger().allowed(o, s)
                },
            final(self).log() == old(self).log().push(
                Event::Approval(Approval { owner: caller, spender, value }),
            ),
    {
        self.ledger.approve(&caller, &spender, value);
        self.events.push(Event::Approval(Approval { owner: caller, spender, value }));
        Ok(())
    }

    /// Moves `value` tokens from `from` to `to` on behalf of `caller`, and lowers
    /// the allowance of `caller` over `from` by `value`.
    ///
    /// Fails with `InsufficientAllowance` when that allowance is below `value`,
    /// else with `InsufficientBalance` when `from` holds less than `value`. A
    /// failure changes nothing, the allowance included. The balances keep adding
    /// up to the total supply.
    pub fn transfer_from(&mut self, caller: AccountId, from: AccountId, to: AccountId, value: u128) -> (r:
        Result<(), Error>)
        requires
            old(self).wf(),
        ensures
            final(self).wf(),
            final(self).ledger().balance_sum() == old(self).ledger().balance_sum(),
            final(self).ledger().balance_sum() == final(self).ledger().supply(),
            old(self).ledger().allowed(from, caller) < value ==> r == Err::<(), Error>(
                Error::InsufficientAllowance,
            ),
            old(self).ledger().allowed(from, caller) >= value && old(self).ledger().balance(from)
                < value ==> r == Err::<(), Error>(Error::InsufficientBalance),
            r is Err ==> *final(self) == *old(self),
            r is Ok <==> value <= old(self).ledger().allowed(from, caller) && value <= old(
            self).ledger().balance(from),
            r is Ok ==> final(self).ledger().supply() == old(self).ledger().supply(),
            r is Ok ==> forall|a: AccountId| #[trigger]
                final(self).ledger().balance(a) == old(self).ledger().balance(a) - (if a == from {
                    value as int
                } else {
                    0
                }) + (if a == to {
                    value as int
                } else {
                    0
                }),
            r is Ok ==> forall|o: AccountId, s: AccountId| #[trigger]
                final(self).ledger().allowed(o, s) == if o == from && s == caller {
                    old(self).ledger().allowed(o, s) - value
                } else {
                    old(self).ledger().allowed(o, s)
                },
            r is Ok ==> final(self).keeps_nfts(old(self)) && final(self).log() == old(
            self).log().push(Event::Transfer(Transfer { from: Some(from), to: Some(to), value })),
    {
        match self.ledger.transfer_from(&caller, &from, &to, value) {
            Ok(()) => {},
            Err(e) => {
                return Err(e);
            },
        }
        self.events.push(Event::Transfer(Transfer { from: Some(from), to: Some(to), value }));
        Ok(())
    }

    /// The notifications raised so far, oldest first.
    pub fn events(&self) -> (r: &Vec<Event>)
        ensures
            r@ == self.log(),
    {
        &self.events
    }

    /// Forgets the notifications raised so far, once the host has published them.
    pub fn clear_events(&mut self)
        ensures
            final(self).ledger() == old(self).ledger(),
            final(self).nfts() == old(self).nfts(),
            final(self).metadata() == old(self).metadata(),
            final(self).log() == Seq::<Event>::empty(),
    {
        self.events = Vec::new();
    }
}

} // verus!
