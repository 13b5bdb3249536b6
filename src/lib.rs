//! A rate-limited faucet that pays fixed claims out of shares it holds in a
//! two-asset liquidity pool.
//!
//! The library holds the faucet's configuration and claim ledger, decides every
//! claim and administrative change, and sizes the pool shares that a claim must
//! redeem. Reading the pool, moving assets and persisting state are left to the
//! host that drives it. Identities (the administrator, the pool, claimants)
//! are `u64` handles that the host assigns.

mod error;
mod faucet;
pub mod laws;
mod ledger;
mod sizing;

pub use error::{FaucetError, LiquidityFailure};
pub use sizing::{available_for_claims, size_shares, PoolSnapshot, Withdrawal};
pub use ledger::time_until_next;
pub use faucet::{Deposit, Faucet, FaucetModel};
