//! A custodial collateral ledger: per-owner vaults whose funds are split into
//! available and locked balances, guarded by owner / delegate / multisig
//! authorization, an allowlist of external caller programs, and withdrawal
//! policies (timelocks, minimum-delay queues, rate limits, recipient whitelists).
//!
//! Every operation is a verified function from the current state and plain
//! request values to a new state or a typed error; a failed operation leaves
//! the state untouched. Every operation is proved to keep the balance
//! equation `total_balance == locked_balance + available_balance`; funds
//! that are timelocked or routed to yield leave the total and the available
//! balance together and come back to both.
pub mod auth;
pub mod constants;
pub mod custody;
pub mod error;
pub mod external;
pub mod keyset;
pub mod laws;
pub mod ledger;
pub mod position_manager;
pub mod pubkey;
pub mod registry;
pub mod state;
pub mod summary;
pub mod timelock;
pub mod vault_admin;
pub mod withdraw_policy;
pub mod yield_ops;
