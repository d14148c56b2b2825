//! Custodial wallet over a fungible test-network token: a token ledger with fees
//! and delegated spending, and a wallet that keeps per-user virtual balances.
pub mod table;
pub mod text;
pub mod account;
pub mod ledger;
pub mod digest;
pub mod wallet;
pub mod minter;
pub mod local_token;
