use vstd::prelude::*;

use crate::account::AccountId;
use crate::error::Error;
use crate::table::Table;

verus! {

/// Balances and allowances of one fungible token.
pub struct FungibleLedger {
    total_supply: u128,
    balances: Table<AccountId, u128>,
    allowances: Table<(AccountId, AccountId), u128>,
}

impl FungibleLedger {
    /// The number of tokens in existence.
    pub closed spec fn supply(&self) -> int {
        self.total_supply as int
    }

    /// The balance of `a`, zero for an account never credited.
    pub closed spec fn balance(&self, a: AccountId) -> int {
        self.balances.amount(a)
    }

    /// What `spender` may still withdraw from `owner`, zero where unset.
    pub closed spec fn allowed(&self, owner: AccountId, spender: AccountId) -> int {
        self.allowances.amount((owner, spender))
    }

    /// The sum of the balances of all accounts.
    pub closed spec fn balance_sum(&self) -> int {
        self.balances.total()
    }

    pub closed spec fn tables_wf(&self) -> bool {
        self.balances.wf() && self.allowances.wf()
    }

    /// The balances add up to the supply.
    pub open spec fn wf(&self) -> bool {
        self.tables_wf() && self.balance_sum() == self.supply()
    }

    /// Balances of `self` are those of `before` with `value` moved from `from` to
    /// `to`; supply and allowances are those of `before`.
    pub open spec fn is_move_of(
        &self,
        before: &FungibleLedger,
        from: AccountId,
        to: AccountId,
        value: u128,
    ) -> bool {
        &&& self.supply() == before.supply()
        &&& forall|a: AccountId|
            #[trigger] self.balance(a) == before.balance(a) - (if a == from {
                value as int
            } else {
                0
            }) + (if a == to {
                value as int
            } else {
                0
            })
        &&& forall|o: AccountId, s: AccountId| #[trigger]
            self.allowed(o, s) == before.allowed(o, s)
    }

    /// A ledger with no tokens.
    pub fn new() -> (l: FungibleLedger)
        ensures
            l.wf(),
            l.supply() == 0,
            forall|a: AccountId| #[trigger] l.balance(a) == 0,
            forall|o: AccountId, s: AccountId| #[trigger] l.allowed(o, s) == 0,
    {
        let balances = Table::new();
        proof {
            balances.lemma_total_empty();
        }
        FungibleLedger { total_supply: 0, balances, allowances: Table::new() }
    }

    /// Sets the supply to `supply`, held entirely by `owner`; allowances stay.
    pub fn reset_supply(&mut self, owner: AccountId, supply: u128)
        requires
            old(self).wf(),
        ensures
            final(self).wf(),
            final(self).supply() == supply,
            final(self).balance(owner) == supply,
            forall|a: AccountId| a != owner ==> #[trigger] final(self).balance(a) == 0,
            forall|o: AccountId, s: AccountId| #[trigger]
                final(self).allowed(o, s) == old(self).allowed(o, s),
    {
        let mut balances = Table::new();
        let ghost empty = balances;
        proof {
            empty.lemma_total_empty();
        }
        balances.insert(owner, supply);
        proof {
            balances.lemma_total_after_insert(&empty, owner, supply);
        }
        self.balances = balances;
        self.total_supply = supply;
    }

    /// The number of tokens in existence.
    pub fn total_supply(&self) -> (r: u128)
        ensures
            r == self.supply(),
    {
        self.total_supply
    }

    /// The balance of `owner`; zero for an unknown account.
    pub fn balance_of(&self, owner: &AccountId) -> (r: u128)
        requires
            self.wf(),
        ensures
            r == self.balance(*owner),
    {
        match self.balances.get(owner) {
            Some(b) => *b,
            None => 0,
        }
    }

    /// What `spender` may still withdraw from `owner`; zero where unset.
    pub fn allowance(&self, owner: &AccountId, spender: &AccountId) -> (r: u128)
        requires
            self.wf(),
        ensures
            r == self.allowed(*owner, *spender),
    {
        match self.allowances.get(&(*owner, *spender)) {
            Some(v) => *v,
            None => 0,
        }
    }

    /// Moves `value` tokens from `from` to `to`.
    ///
    /// Fails with `InsufficientBalance`, changing nothing, when `from` holds less
    /// than `value`.
    pub fn transfer(&mut self, from: &AccountId, to: &AccountId, value: u128) -> (r: Result<
        (),
        Error,
    >)
        requires
            old(self).wf(),
        ensures
            final(self).wf(),
            r is Ok <==> value <= old(self).balance(*from),
            r is Ok ==> final(self).is_move_of(old(self), *from, *to, value),
            r is Err ==> r == Err::<(), Error>(Error::InsufficientBalance) && *final(self)
                == *old(self),
    {
        let from_balance = self.balance_of(from);
        if from_balance < value {
            return Err(Error::InsufficientBalance);
        }
        let ghost before = *self;
        self.balances.insert(*from, from_balance - value);
        let ghost middle = self.balances;
        proof {
            middle.lemma_total_after_insert(&before.balances, *from, (from_balance - value) as u128);
            middle.lemma_amount_bounded(*to);
        }
        let to_balance = match self.balances.get(to) {
            Some(b) => *b,
            None => 0,
        };
        self.balances.insert(*to, to_balance + value);
        proof {
            self.balances.lemma_total_after_insert(&middle, *to, (to_balance + value) as u128);
        }
        Ok(())
    }

    /// Sets what `spender` may withdraw from `owner` to `value`, replacing any
    /// earlier allowance.
    pub fn approve(&mut self, owner: &AccountId, spender: &AccountId, value: u128)
        requires
            old(self).wf(),
        ensures
            final(self).wf(),
            final(self).supply() == old(self).supply(),
            forall|a: AccountId| #[trigger] final(self).balance(a) == old(self).balance(a),
            forall|o: AccountId, s: AccountId| #[trigger]
                final(self).allowed(o, s) == if o == *owner && s == *spender {
                    value as int
                } else {
                    old(self).allowed(o, s)
                },
    {
        self.allowances.insert((*owner, *spender), value);
    }

    /// Moves `value` tokens from `from` to `to` on behalf of `caller`, and lowers
    /// the allowance of `caller` over `from` by `value`.
    ///
    /// Fails with `InsufficientAllowance` when that allowance is below `value`,
    /// else with `InsufficientBalance` when `from` holds less than `value`; a
    /// failure changes nothing.
    pub fn transfer_from(
        &mut self,
        caller: &AccountId,
        from: &AccountId,
        to: &AccountId,
        value: u128,
    ) -> (r: Result<(), Error>)
        requires
            old(self).wf(),
        ensures
            final(self).wf(),
            old(self).allowed(*from, *caller) < value ==> r == Err::<(), Error>(
                Error::InsufficientAllowance,
            ),
            old(self).allowed(*from, *caller) >= value && old(self).balance(*from) < value ==> r
                == Err::<(), Error>(Error::InsufficientBalance),
            r is Err ==> *final(self) == *old(self),
            r is Ok <==> value <= old(self).allowed(*from, *caller) && value <= old(self).balance(
                *from,
            ),
            r is Ok ==> final(self).supply() == old(self).supply(),
            r is Ok ==> forall|a: AccountId|
                #[trigger] final(self).balance(a) == old(self).balance(a) - (if a == *from {
                    value as int
                } else {
                    0
                }) + (if a == *to {
                    value as int
                } else {
                    0
                }),
            r is Ok ==> forall|o: AccountId, s: AccountId| #[trigger]
                final(self).allowed(o, s) == if o == *from && s == *caller {
                    old(self).allowed(o, s) - value
                } else {
                    old(self).allowed(o, s)
                },
    {
        let allowance = self.allowance(from, caller);
        if allowance < value {
            return Err(Error::InsufficientAllowance);
        }
        match self.transfer(from, to, value) {
            Ok(()) => {},
            Err(e) => {
                return Err(e);
            },
        }
        let ghost moved = *self;
        self.allowances.insert((*from, *caller), (allowance - value) as u128);
        proof {
            assert forall|o: AccountId, s: AccountId| #[trigger]
                self.allowed(o, s) == if o == *from && s == *caller {
                    old(self).allowed(o, s) - value
                } else {
                    old(self).allowed(o, s)
                } by {
                assert(moved.allowed(o, s) == old(self).allowed(o, s));
            }
            assert forall|a: AccountId| #[trigger] self.balance(a) == moved.balance(a) by {}
        }
        Ok(())
    }
}

} // verus!
