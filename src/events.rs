use vstd::prelude::*;

use crate::account::AccountId;

verus! {

/// Fungible tokens moved; `from` is `None` when they were created.
#[derive(Clone, Copy, Debug, PartialEq, Eq)]
pub struct Transfer {
    pub from: Option<AccountId>,
    pub to: Option<AccountId>,
    pub value: u128,
}

/// `spender` may withdraw up to `value` tokens from `owner`.
#[derive(Clone, Copy, Debug, PartialEq, Eq)]
pub struct Approval {
    pub owner: AccountId,
    pub spender: AccountId,
    pub value: u128,
}

/// A non-fungible token changed hands; `from` is `None` when it was minted.
#[derive(Clone, Copy, Debug, PartialEq, Eq)]
pub struct NFTTransfer {
    pub from: Option<AccountId>,
    pub to: Option<AccountId>,
    pub token_id: u32,
}

/// `approved` may transfer the token `token_id` of `owner`.
#[derive(Clone, Copy, Debug, PartialEq, Eq)]
pub struct NFTApproval {
    pub owner: AccountId,
    pub approved: AccountId,
    pub token_id: u32,
}

/// A notification for the host to publish.
#[derive(Clone, Copy, Debug, PartialEq, Eq)]
pub enum Event {
    Transfer(Transfer),
    Approval(Approval),
    NFTTransfer(NFTTransfer),
    NFTApproval(NFTApproval),
}

} // verus!
