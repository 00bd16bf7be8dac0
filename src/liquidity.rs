use vstd::prelude::*;

use crate::account::AccountId;
use crate::error::Error;
use crate::table::Table;

verus! {

/// Liquidity provided, by provider and token.
pub struct LiquidityBook {
    positions: Table<(AccountId, AccountId), u128>,
}

impl LiquidityBook {
    /// The liquidity of `provider` in `token`, zero where none was added.
    pub closed spec fn position(&self, provider: AccountId, token: AccountId) -> int {
        self.positions.amount((provider, token))
    }

    pub closed spec fn wf(&self) -> bool {
        self.positions.wf()
    }

    /// The positions of `self` are those of `before`, but that of `provider` in
    /// `token`, which is `amount`.
    pub open spec fn is_update_of(
        &self,
        before: &LiquidityBook,
        provider: AccountId,
        token: AccountId,
        amount: int,
    ) -> bool {
        forall|p: AccountId, t: AccountId| #[trigger]
            self.position(p, t) == if p == provider && t == token {
                amount
            } else {
                before.position(p, t)
            }
    }

    /// No liquidity.
    pub fn new() -> (b: LiquidityBook)
        ensures
            b.wf(),
            forall|p: AccountId, t: AccountId| #[trigger] b.position(p, t) == 0,
    {
        LiquidityBook { positions: Table::new() }
    }

    /// The liquidity of `provider` in `token`.
    pub fn liquidity_of(&self, provider: &AccountId, token: &AccountId) -> (r: u128)
        requires
            self.wf(),
        ensures
            r == self.position(*provider, *token),
    {
        match self.positions.get(&(*provider, *token)) {
            Some(v) => *v,
            None => 0,
        }
    }

    /// Adds `amount` to the liquidity of `caller` in `token`.
    ///
    /// Fails with `InvalidParameters`, changing nothing, when the sum would not
    /// fit in `u128`.
    pub fn add_liquidity(&mut self, caller: &AccountId, token: &AccountId, amount: u128) -> (r:
        Result<(), Error>)
        requires
            old(self).wf(),
        ensures
            final(self).wf(),
            r is Ok <==> old(self).position(*caller, *token) + amount <= u128::MAX,
            r is Ok ==> final(self).is_update_of(
                old(self),
                *caller,
                *token,
                old(self).position(*caller, *token) + amount,
            ),
            r is Err ==> r == Err::<(), Error>(Error::InvalidParameters) && *final(self) == *old(
            self),
    {
        let current = self.liquidity_of(caller, token);
        if current > u128::MAX - amount {
            return Err(Error::InvalidParameters);
        }
        self.positions.insert((*caller, *token), current + amount);
        Ok(())
    }

    /// Takes `amount` from the liquidity of `caller` in `token`.
    ///
    /// Fails with `InsufficientBalance`, changing nothing, when `amount` exceeds
    /// that liquidity.
    pub fn remove_liquidity(&mut self, caller: &AccountId, token: &AccountId, amount: u128) -> (r:
        Result<(), Error>)
        requires
            old(self).wf(),
        ensures
            final(self).wf(),
            r is Ok <==> amount <= old(self).position(*caller, *token),
            r is Ok ==> final(self).is_update_of(
                old(self),
                *caller,
                *token,
                old(self).position(*caller, *token) - amount,
            ),
            r is Err ==> r == Err::<(), Error>(Error::InsufficientBalance) && *final(self)
                == *old(self),
    {
        let current = self.liquidity_of(caller, token);
        if current < amount {
            return Err(Error::InsufficientBalance);
        }
        self.positions.insert((*caller, *token), current - amount);
        Ok(())
    }

    /// Adding liquidity and then removing the same amount succeeds and leaves every
    /// position as it was.
    pub proof fn lemma_add_remove_round_trip(
        start: &LiquidityBook,
        added: &LiquidityBook,
        removed: &LiquidityBook,
        provider: AccountId,
        token: AccountId,
        amount: u128,
    )
        requires
            added.is_update_of(start, provider, token, start.position(provider, token) + amount),
            removed.is_update_of(
                added,
                provider,
                token,
                added.position(provider, token) - amount,
            ),
        ensures
            amount <= added.position(provider, token),
            forall|p: AccountId, t: AccountId| #[trigger]
                removed.position(p, t) == start.position(p, t),
    {
        assert(added.position(provider, token) == start.position(provider, token) + amount);
        assert forall|p: AccountId, t: AccountId| #[trigger]
            removed.position(p, t) == start.position(p, t) by {
            assert(added.position(p, t) == if p == provider && t == token {
                start.position(provider, token) + amount
            } else {
                start.position(p, t)
            });
        }
    }
}

} // verus!
