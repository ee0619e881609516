use vstd::prelude::*;

use crate::constants::{
    MAX_AUTHORIZED_PROGRAMS, MAX_DELEGATES, MAX_MULTISIG_SIGNERS, MAX_PENDING_WITHDRAWALS,
    MAX_TIMELOCKS, MAX_WITHDRAW_WHITELIST,
};
use crate::keyset::{all_distinct, contains_key};
use crate::pubkey::Pubkey;

verus! {

/// Funds withheld from the available balance until `unlock_time`.
#[derive(Clone, Copy, Debug, PartialEq, Eq, Structural)]
pub struct TimelockEntry {
    pub amount: u64,
    pub unlock_time: i64,
}

/// A queued withdrawal request that may be consumed from `executable_at` on.
#[derive(Clone, Copy, Debug, PartialEq, Eq, Structural)]
pub struct PendingWithdrawalEntry {
    pub amount: u64,
    pub requested_at: i64,
    pub executable_at: i64,
}

/// The per-owner ledger record.
pub struct CollateralVault {
    pub owner: Pubkey,
    /// The custody account that holds the real funds.
    pub token_account: Pubkey,
    /// The unit of account of the funds.
    pub usdt_mint: Pubkey,
    pub total_balance: u64,
    pub locked_balance: u64,
    pub available_balance: u64,
    pub total_deposited: u64,
    pub total_withdrawn: u64,
    pub yield_deposited_balance: u64,
    pub yield_accrued_balance: u64,
    pub last_compounded_at: i64,
    pub active_yield_program: Pubkey,
    pub created_at: i64,
    pub bump: u8,
    /// Zero disables multisig mode.
    pub multisig_threshold: u8,
    pub multisig_signers: Vec<Pubkey>,
    pub delegates: Vec<Pubkey>,
    pub timelocks: Vec<TimelockEntry>,
    /// Zero disables the minimum-delay queue.
    pub min_withdraw_delay_seconds: i64,
    pub pending_withdrawals: Vec<PendingWithdrawalEntry>,
    pub withdraw_whitelist: Vec<Pubkey>,
    /// Zero disables rate limiting.
    pub rate_window_seconds: u32,
    pub rate_limit_amount: u64,
    pub last_withdrawal_window_start: i64,
    pub withdrawn_in_window: u64,
}

/// The mathematical value of a [`CollateralVault`]: its collections as sequences.
pub struct VaultView {
    pub owner: Pubkey,
    pub token_account: Pubkey,
    pub usdt_mint: Pubkey,
    pub total_balance: u64,
    pub locked_balance: u64,
    pub available_balance: u64,
    pub total_deposited: u64,
    pub total_withdrawn: u64,
    pub yield_deposited_balance: u64,
    pub yield_accrued_balance: u64,
    pub last_compounded_at: i64,
    pub active_yield_program: Pubkey,
    pub created_at: i64,
    pub bump: u8,
    pub multisig_threshold: u8,
    pub multisig_signers: Seq<Pubkey>,
    pub delegates: Seq<Pubkey>,
    pub timelocks: Seq<TimelockEntry>,
    pub min_withdraw_delay_seconds: i64,
    pub pending_withdrawals: Seq<PendingWithdrawalEntry>,
    pub withdraw_whitelist: Seq<Pubkey>,
    pub rate_window_seconds: u32,
    pub rate_limit_amount: u64,
    pub last_withdrawal_window_start: i64,
    pub withdrawn_in_window: u64,
}

impl View for CollateralVault {
    type V = VaultView;

    open spec fn view(&self) -> VaultView {
        VaultView {
            owner: self.owner,
            token_account: self.token_account,
            usdt_mint: self.usdt_mint,
            total_balance: self.total_balance,
            locked_balance: self.locked_balance,
            available_balance: self.available_balance,
            total_deposited: self.total_deposited,
            total_withdrawn: self.total_withdrawn,
            yield_deposited_balance: self.yield_deposited_balance,
            yield_accrued_balance: self.yield_accrued_balance,
            last_compounded_at: self.last_compounded_at,
            active_yield_program: self.active_yield_program,
            created_at: self.created_at,
            bump: self.bump,
            multisig_threshold: self.multisig_threshold,
            multisig_signers: self.multisig_signers@,
            delegates: self.delegates@,
            timelocks: self.timelocks@,
            min_withdraw_delay_seconds: self.min_withdraw_delay_seconds,
            pending_withdrawals: self.pending_withdrawals@,
            withdraw_whitelist: self.withdraw_whitelist@,
            rate_window_seconds: self.rate_window_seconds,
            rate_limit_amount: self.rate_limit_amount,
            last_withdrawal_window_start: self.last_withdrawal_window_start,
            withdrawn_in_window: self.withdrawn_in_window,
        }
    }
}

/// The well-formed key sets: no identity twice, at most `cap` of them.
pub open spec fn bounded_key_set(s: Seq<Pubkey>, cap: usize) -> bool {
    s.no_duplicates() && s.len() <= cap
}

impl VaultView {
    /// The balance equation: the total is split into available and locked
    /// funds. Timelocked funds and funds routed to yield are outside the
    /// total until they come back to the available balance.
    pub open spec fn balanced(self) -> bool {
        self.total_balance == self.locked_balance + self.available_balance
    }

    /// The vault's invariant, established at creation and kept by every operation.
    pub open spec fn wf(self) -> bool {
        &&& self.balanced()
        &&& bounded_key_set(self.multisig_signers, MAX_MULTISIG_SIGNERS)
        &&& self.multisig_threshold <= self.multisig_signers.len()
        &&& bounded_key_set(self.delegates, MAX_DELEGATES)
        &&& !self.delegates.contains(self.owner)
        &&& self.timelocks.len() <= MAX_TIMELOCKS
        &&& self.pending_withdrawals.len() <= MAX_PENDING_WITHDRAWALS
        &&& bounded_key_set(self.withdraw_whitelist, MAX_WITHDRAW_WHITELIST)
    }
}

/// The process-wide policy object.
pub struct VaultAuthority {
    /// The sole signer of registry changes.
    pub governance: Pubkey,
    /// External caller programs allowed to lock, unlock and transfer.
    pub authorized_programs: Vec<Pubkey>,
    pub bump: u8,
    /// Global switch that stops lock, unlock and transfer.
    pub freeze: bool,
    /// When set, the declared caller must be the attested immediate caller.
    pub cpi_enforced: bool,
    /// Approved yield-routing programs.
    pub yield_whitelist: Vec<Pubkey>,
    pub risk_level: u8,
}

/// The mathematical value of a [`VaultAuthority`].
pub struct RegistryView {
    pub governance: Pubkey,
    pub authorized_programs: Seq<Pubkey>,
    pub bump: u8,
    pub freeze: bool,
    pub cpi_enforced: bool,
    pub yield_whitelist: Seq<Pubkey>,
    pub risk_level: u8,
}

impl View for VaultAuthority {
    type V = RegistryView;

    open spec fn view(&self) -> RegistryView {
        RegistryView {
            governance: self.governance,
            authorized_programs: self.authorized_programs@,
            bump: self.bump,
            freeze: self.freeze,
            cpi_enforced: self.cpi_enforced,
            yield_whitelist: self.yield_whitelist@,
            risk_level: self.risk_level,
        }
    }
}

impl RegistryView {
    pub open spec fn wf(self) -> bool {
        &&& bounded_key_set(self.authorized_programs, MAX_AUTHORIZED_PROGRAMS)
        &&& bounded_key_set(self.yield_whitelist, MAX_AUTHORIZED_PROGRAMS)
    }
}

impl CollateralVault {
    /// Whether the vault satisfies its invariant; a vault read back from
    /// storage is checked with this before any operation runs on it.
    pub fn is_well_formed(&self) -> (r: bool)
        ensures
            r == self@.wf(),
    {
        if self.total_balance as u128 != self.locked_balance as u128
            + self.available_balance as u128 {
            return false;
        }
        self.timelocks.len() <= MAX_TIMELOCKS && self.multisig_signers.len() <= MAX_MULTISIG_SIGNERS && all_distinct(&self.multisig_signers)
            && self.multisig_threshold as usize <= self.multisig_signers.len()
            && self.delegates.len() <= MAX_DELEGATES && all_distinct(&self.delegates)
            && !contains_key(&self.delegates, &self.owner) && self.pending_withdrawals.len()
            <= MAX_PENDING_WITHDRAWALS && self.withdraw_whitelist.len() <= MAX_WITHDRAW_WHITELIST
            && all_distinct(&self.withdraw_whitelist)
    }
}

impl VaultAuthority {
    /// Whether the registry satisfies its invariant.
    pub fn is_well_formed(&self) -> (r: bool)
        ensures
            r == self@.wf(),
    {
        self.authorized_programs.len() <= MAX_AUTHORIZED_PROGRAMS && all_distinct(
            &self.authorized_programs,
        ) && self.yield_whitelist.len() <= MAX_AUTHORIZED_PROGRAMS && all_distinct(
            &self.yield_whitelist,
        )
    }
}

} // verus!
