//! Ledger and lifecycle engine for fungible balances, NFT ownership, intents,
//! bridge records and liquidity positions.
pub mod account;
pub mod bridge;
pub mod codec;
pub mod error;
pub mod events;
pub mod fungible;
pub mod hasher;
pub mod intent;
pub mod liquidity;
pub mod nft;
pub mod polkadot;
pub mod table;
