use vstd::prelude::*;

verus! {

/// Upper bound on the external caller programs (and yield programs) in the registry.
pub const MAX_AUTHORIZED_PROGRAMS: usize = 64;

/// Upper bound on the signers of a vault's multisig configuration.
pub const MAX_MULTISIG_SIGNERS: usize = 10;

/// Upper bound on a vault's delegates.
pub const MAX_DELEGATES: usize = 16;

/// Upper bound on a vault's concurrently scheduled timelocks.
pub const MAX_TIMELOCKS: usize = 64;

/// Upper bound on a vault's queued minimum-delay withdrawal requests.
pub const MAX_PENDING_WITHDRAWALS: usize = 32;

/// Upper bound on a vault's recipient whitelist.
pub const MAX_WITHDRAW_WHITELIST: usize = 16;

/// Smallest accepted deposit, in the unit of account's smallest unit.
pub const MIN_DEPOSIT: u64 = 1;

} // verus!
