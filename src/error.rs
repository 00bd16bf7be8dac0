use vstd::prelude::*;

verus! {

/// The kinds of failure an operation can report.
#[derive(Clone, Copy, Debug, PartialEq, Eq, Structural)]
pub enum Error {
    /// Not enough balance to fulfil a request.
    InsufficientBalance,
    /// Not enough allowance to fulfil a delegated transfer.
    InsufficientAllowance,
    /// No token has the given id.
    TokenNotFound,
    /// The caller does not own the token.
    NotTokenOwner,
    /// Every token id has been assigned: no further token can be minted.
    TokenAlreadyMinted,
    /// A token cannot be minted with an empty URI.
    InvalidTokenURI,
    /// Reserved for an authorization-checked NFT transfer.
    NotApprovedOrOwner,
    /// Reserved for an authorization-checked NFT transfer.
    OperatorNotApproved,
    /// No intent is stored under the given identifier.
    IntentNotFound,
    /// The intent has already been executed.
    IntentAlreadyExecuted,
    /// The intent's timeout has passed.
    IntentExpired,
    /// Reserved for bridge failures.
    BridgeError,
    /// The parameters do not describe a representable operation.
    InvalidParameters,
}

} // verus!
