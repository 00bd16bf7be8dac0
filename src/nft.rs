use vstd::prelude::*;

use crate::account::AccountId;
use crate::error::Error;
use crate::table::Table;

verus! {

/// The largest token id.
pub const MAX_TOKEN_ID: u32 = 0xffff_ffff;

/// Ownership, metadata and approvals of a collection of non-fungible tokens.
///
/// Token ids are assigned in order from zero; the token with id `i` is held at
/// position `i` of `owners`, `uris` and `approvals`.
pub struct NftLedger {
    owners: Vec<AccountId>,
    uris: Vec<String>,
    approvals: Vec<Option<AccountId>>,
    owner_tokens: Table<AccountId, Vec<u32>>,
    operator_approvals: Table<(AccountId, AccountId), bool>,
}

fn copy_ids(ids: &Vec<u32>) -> (r: Vec<u32>)
    ensures
        r@ == ids@,
{
    let mut r: Vec<u32> = Vec::new();
    let mut i: usize = 0;
    while i < ids.len()
        invariant
            0 <= i <= ids.len(),
            r@ == ids@.subrange(0, i as int),
        decreases ids.len() - i,
    {
        r.push(ids[i]);
        i = i + 1;
        assert(r@ =~= ids@.subrange(0, i as int));
    }
    assert(ids@.subrange(0, ids.len() as int) =~= ids@);
    r
}

impl NftLedger {
    /// The number of tokens minted so far, which is also the next id.
    pub closed spec fn count(&self) -> nat {
        self.owners@.len()
    }

    /// Whether a token with id `id` exists.
    pub open spec fn minted(&self, id: u32) -> bool {
        id < self.count()
    }

    /// The owner of token `id`.
    pub closed spec fn owner(&self, id: u32) -> AccountId {
        self.owners@[id as int]
    }

    /// The metadata URI of token `id`.
    pub closed spec fn uri(&self, id: u32) -> Seq<char> {
        self.uris@[id as int]@
    }

    /// The account approved to move token `id`, if any.
    pub closed spec fn approved(&self, id: u32) -> Option<AccountId> {
        self.approvals@[id as int]
    }

    /// The ids of the tokens minted to `a`, in order of minting.
    pub closed spec fn tokens_of(&self, a: AccountId) -> Seq<u32> {
        if self.owner_tokens@.contains_key(a) {
            self.owner_tokens@[a]@
        } else {
            Seq::empty()
        }
    }

    /// Whether `operator` may manage all tokens of `owner`.
    pub closed spec fn operator(&self, owner: AccountId, operator: AccountId) -> bool {
        self.operator_approvals@.contains_key((owner, operator)) && self.operator_approvals@[(
        owner,
        operator,
        )]
    }

    /// Token data is held for each id, ids fit in `u32`, and each per-owner list
    /// names only tokens of that owner.
    pub closed spec fn wf(&self) -> bool {
        &&& self.uris.len() == self.owners.len()
        &&& self.approvals.len() == self.owners.len()
        &&& self.owners.len() <= MAX_TOKEN_ID as nat + 1
        &&& self.owner_tokens.wf()
        &&& self.operator_approvals.wf()
        &&& forall|a: AccountId, i: int|
            0 <= i < self.tokens_of(a).len() ==> self.minted(#[trigger] self.tokens_of(a)[i])
                && self.owner(self.tokens_of(a)[i]) == a
    }

    /// Everything of `self` but the approval of `id` is as in `before`.
    pub open spec fn same_but_approval(&self, before: &NftLedger, id: u32) -> bool {
        &&& self.count() == before.count()
        &&& forall|t: u32| #[trigger] self.minted(t) ==> self.owner(t) == before.owner(t)
        &&& forall|t: u32| #[trigger] self.minted(t) ==> self.uri(t) == before.uri(t)
        &&& forall|t: u32|
            #[trigger] self.minted(t) && t != id ==> self.approved(t) == before.approved(t)
        &&& forall|a: AccountId| #[trigger] self.tokens_of(a) == before.tokens_of(a)
        &&& forall|o: AccountId, p: AccountId| #[trigger]
            self.operator(o, p) == before.operator(o, p)
    }

    proof fn lemma_wf_when_owners_kept(&self, before: &NftLedger)
        requires
            before.wf(),
            self.owners == before.owners,
            self.owner_tokens == before.owner_tokens,
            self.uris.len() == before.uris.len(),
            self.approvals.len() == before.approvals.len(),
            self.operator_approvals.wf(),
        ensures
            self.wf(),
    {
        assert forall|a: AccountId, i: int|
            0 <= i < self.tokens_of(a).len() implies self.minted(
            #[trigger] self.tokens_of(a)[i],
        ) && self.owner(self.tokens_of(a)[i]) == a by {
            assert(before.tokens_of(a)[i] == self.tokens_of(a)[i]);
        }
    }

    /// An empty collection.
    pub fn new() -> (l: NftLedger)
        ensures
            l.wf(),
            l.count() == 0,
            forall|a: AccountId| #[trigger] l.tokens_of(a) == Seq::<u32>::empty(),
            forall|o: AccountId, p: AccountId| !#[trigger] l.operator(o, p),
    {
        NftLedger {
            owners: Vec::new(),
            uris: Vec::new(),
            approvals: Vec::new(),
            owner_tokens: Table::new(),
            operator_approvals: Table::new(),
        }
    }

    /// Mints a token with metadata `token_uri` to `to` and returns its id, the
    /// next in sequence.
    ///
    /// Fails with `InvalidTokenURI` when `token_uri` is empty, else with
    /// `TokenAlreadyMinted` when every id has been assigned; a failure changes
    /// nothing.
    pub fn mint(&mut self, to: AccountId, token_uri: String) -> (r: Result<u32, Error>)
        requires
            old(self).wf(),
        ensures
            final(self).wf(),
            token_uri@.len() == 0 ==> r == Err::<u32, Error>(Error::InvalidTokenURI),
            token_uri@.len() > 0 && old(self).count() > MAX_TOKEN_ID ==> r == Err::<u32, Error>(
                Error::TokenAlreadyMinted,
            ),
            r is Err ==> *final(self) == *old(self),
            r is Ok <==> token_uri@.len() > 0 && old(self).count() <= MAX_TOKEN_ID,
            r matches Ok(id) ==> {
                &&& id == old(self).count()
                &&& final(self).count() == old(self).count() + 1
                &&& final(self).owner(id) == to
                &&& final(self).uri(id) == token_uri@
                &&& final(self).approved(id) == None::<AccountId>
                &&& forall|t: u32| #[trigger]
                    old(self).minted(t) ==> final(self).owner(t) == old(self).owner(t)
                        && final(self).uri(t) == old(self).uri(t) && final(self).approved(t)
                        == old(self).approved(t)
                &&& final(self).tokens_of(to) == old(self).tokens_of(to).push(id)
                &&& forall|a: AccountId|
                    a != to ==> #[trigger] final(self).tokens_of(a) == old(self).tokens_of(a)
                &&& forall|o: AccountId, p: AccountId| #[trigger]
                    final(self).operator(o, p) == old(self).operator(o, p)
            },
    {
        if token_uri.as_str().is_empty() {
            return Err(Error::InvalidTokenURI);
        }
        if self.owners.len() > MAX_TOKEN_ID as usize {
            return Err(Error::TokenAlreadyMinted);
        }
        let token_id = self.owners.len() as u32;
        let ghost before = *self;
        self.owners.push(to);
        self.uris.push(token_uri);
        self.approvals.push(None);
        let mut ids = match self.owner_tokens.get(&to) {
            Some(ids) => copy_ids(ids),
            None => Vec::new(),
        };
        assert(ids@ == before.tokens_of(to));
        ids.push(token_id);
        self.owner_tokens.insert(to, ids);
        proof {
            assert forall|a: AccountId| a != to implies #[trigger] self.tokens_of(a)
                == before.tokens_of(a) by {}
            assert(self.tokens_of(to) == before.tokens_of(to).push(token_id));
            assert forall|a: AccountId, i: int|
                0 <= i < self.tokens_of(a).len() implies self.minted(
                #[trigger] self.tokens_of(a)[i],
            ) && self.owner(self.tokens_of(a)[i]) == a by {
                if a != to {
                    assert(before.tokens_of(a)[i] == self.tokens_of(a)[i]);
                } else if i < before.tokens_of(a).len() {
                    assert(before.tokens_of(a)[i] == self.tokens_of(a)[i]);
                }
            }
        }
        Ok(token_id)
    }

    /// The owner of token `token_id`; `TokenNotFound` when it does not exist.
    pub fn owner_of(&self, token_id: u32) -> (r: Result<AccountId, Error>)
        requires
            self.wf(),
        ensures
            self.minted(token_id) ==> r == Ok::<AccountId, Error>(self.owner(token_id)),
            !self.minted(token_id) ==> r == Err::<AccountId, Error>(Error::TokenNotFound),
    {
        if (token_id as usize) < self.owners.len() {
            Ok(self.owners[token_id as usize])
        } else {
            Err(Error::TokenNotFound)
        }
    }

    /// The metadata URI of token `token_id`; `TokenNotFound` when it does not
    /// exist.
    pub fn token_uri(&self, token_id: u32) -> (r: Result<String, Error>)
        requires
            self.wf(),
        ensures
            self.minted(token_id) ==> (r matches Ok(u) && u@ == self.uri(token_id)),
            !self.minted(token_id) ==> r == Err::<String, Error>(Error::TokenNotFound),
    {
        if (token_id as usize) < self.uris.len() {
            Ok(self.uris[token_id as usize].clone())
        } else {
            Err(Error::TokenNotFound)
        }
    }

    /// The account approved to move token `token_id`; `None` when there is none
    /// or the token does not exist.
    pub fn get_approved(&self, token_id: u32) -> (r: Option<AccountId>)
        requires
            self.wf(),
        ensures
            r == if self.minted(token_id) {
                self.approved(token_id)
            } else {
                None
            },
    {
        if (token_id as usize) < self.approvals.len() {
            self.approvals[token_id as usize]
        } else {
            None
        }
    }

    /// Lets `spender` move token `token_id` of `caller`, replacing any earlier
    /// approval of that token.
    ///
    /// Fails with `TokenNotFound` when the token does not exist, else with
    /// `NotTokenOwner` when `caller` does not own it; a failure changes nothing.
    pub fn approve(&mut self, caller: &AccountId, spender: &AccountId, token_id: u32) -> (r:
        Result<(), Error>)
        requires
            old(self).wf(),
        ensures
            final(self).wf(),
            !old(self).minted(token_id) ==> r == Err::<(), Error>(Error::TokenNotFound),
            old(self).minted(token_id) && old(self).owner(token_id) != *caller ==> r == Err::<
                (),
                Error,
            >(Error::NotTokenOwner),
            r is Err ==> *final(self) == *old(self),
            r is Ok <==> old(self).minted(token_id) && old(self).owner(token_id) == *caller,
            r is Ok ==> final(self).approved(token_id) == Some(*spender) && final(self).same_but_approval(old(self), token_id),
    {
        let owner = match self.owner_of(token_id) {
            Ok(owner) => owner,
            Err(e) => {
                return Err(e);
            },
        };
        if !owner.same(caller) {
            return Err(Error::NotTokenOwner);
        }
        self.approvals.set(token_id as usize, Some(*spender));
        proof {
            self.lemma_wf_when_owners_kept(old(self));
        }
        Ok(())
    }

    /// Records whether `operator` may manage all tokens of `caller`.
    pub fn set_approval_for_all(&mut self, caller: &AccountId, operator: &AccountId, approved: bool)
        requires
            old(self).wf(),
        ensures
            final(self).wf(),
            final(self).count() == old(self).count(),
            forall|t: u32| #[trigger]
                final(self).minted(t) ==> final(self).owner(t) == old(self).owner(t) && final(self).uri(t) == old(self).uri(t) && final(self).approved(t) == old(self).approved(t),
            forall|a: AccountId| #[trigger] final(self).tokens_of(a) == old(self).tokens_of(a),
            forall|o: AccountId, p: AccountId| #[trigger]
                final(self).operator(o, p) == if o == *caller && p == *operator {
                    approved
                } else {
                    old(self).operator(o, p)
                },
    {
        self.operator_approvals.insert((*caller, *operator), approved);
        proof {
            self.lemma_wf_when_owners_kept(old(self));
        }
    }

    /// Whether `operator` may manage all tokens of `owner`.
    pub fn is_approved_for_all(&self, owner: &AccountId, operator: &AccountId) -> (r: bool)
        requires
            self.wf(),
        ensures
            r == self.operator(*owner, *operator),
    {
        match self.operator_approvals.get(&(*owner, *operator)) {
            Some(b) => *b,
            None => false,
        }
    }

    /// The ids of the tokens minted to `owner`, in order of minting.
    pub fn tokens_of_owner(&self, owner: &AccountId) -> (r: Vec<u32>)
        requires
            self.wf(),
        ensures
            r@ == self.tokens_of(*owner),
    {
        match self.owner_tokens.get(owner) {
            Some(ids) => copy_ids(ids),
            None => Vec::new(),
        }
    }
}

} // verus!
