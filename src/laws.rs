//! Properties that relate the operations to each other and to the vault's
//! invariant.
use vstd::prelude::*;

use crate::auth::{external_caller_error, SignerAccount};
use crate::error::ErrorCode;
use crate::external::{
    lock_error, locked, transfer_error, transferred_in, transferred_out, unlock_error, unlocked,
};
use crate::ledger::{
    close_vault_error, deposit_error, deposited, emergency_withdraw_error, emergency_withdrawn,
    is_new_vault, withdraw_error, withdrawn,
};
use crate::pubkey::Pubkey;
use crate::state::{RegistryView, VaultView};
use crate::summary::{summaries_error, SummaryAccount};
use crate::timelock::{
    lemma_matured_nonneg, matured_total, release_timelocks_error, released,
    schedule_timelock_error, timelock_scheduled,
};
use crate::withdraw_policy::{matured_pending_total, rate_limited, used_in_window};
use crate::yield_ops::{
    compound_yield_error, yield_compounded, yield_deposit_error, yield_deposited,
    yield_withdraw_error, yield_withdrawn,
};

verus! {

/// A deposit of `x` followed by a withdrawal of `x` to the owner succeeds and
/// leaves the total, locked and available balances as they were; only the
/// audit counters grow by `x`. The withdrawal's own conditions are assumed:
/// no locked funds, the summaries the registry asks for, no timelock maturing
/// at that moment, room in the delay queue and the rate window, and room in
/// the withdrawal counter.
pub proof fn lemma_deposit_then_withdraw(
    v: VaultView,
    reg: RegistryView,
    vault_key: Pubkey,
    authority: Pubkey,
    cosigners: Seq<SignerAccount>,
    summaries: Seq<SummaryAccount>,
    x: u64,
    now: i64,
)
    requires
        v.wf(),
        deposit_error(v, authority, cosigners, x) is None,
        v.locked_balance == 0,
        matured_total(v.timelocks, now) == 0,
        summaries.len() >= reg.authorized_programs.len(),
        summaries_error(summaries, reg.authorized_programs, vault_key, v.owner) is None,
        v.min_withdraw_delay_seconds > 0 ==> x <= matured_pending_total(
            v.pending_withdrawals,
            now,
        ) <= u64::MAX,
        rate_limited(v) ==> used_in_window(v, now) + x <= v.rate_limit_amount,
        v.total_withdrawn + x <= u64::MAX,
    ensures
        withdraw_error(
            deposited(v, x),
            reg,
            vault_key,
            authority,
            cosigners,
            summaries,
            v.owner,
            x,
            now,
        ) is None,
        ({
            let w = withdrawn(deposited(v, x), x, now);
            &&& w.total_balance == v.total_balance
            &&& w.locked_balance == v.locked_balance
            &&& w.available_balance == v.available_balance
            &&& w.total_deposited == v.total_deposited + x
            &&& w.total_withdrawn == v.total_withdrawn + x
        }),
{
}

/// Locking more than the available balance fails with `InsufficientFunds`
/// once the registry is not frozen and the caller is allowlisted.
pub proof fn lemma_lock_beyond_available(
    v: VaultView,
    reg: RegistryView,
    declared: Pubkey,
    actual: Option<Pubkey>,
    amount: u64,
)
    requires
        !reg.freeze,
        external_caller_error(reg, declared, actual) is None,
        amount > v.available_balance,
    ensures
        lock_error(v, reg, declared, actual, amount) == Some(ErrorCode::InsufficientFunds),
{
}

/// Unlocking more than the locked balance fails with `InsufficientFunds`
/// once the registry is not frozen and the caller is allowlisted.
pub proof fn lemma_unlock_beyond_locked(
    v: VaultView,
    reg: RegistryView,
    declared: Pubkey,
    actual: Option<Pubkey>,
    amount: u64,
)
    requires
        !reg.freeze,
        external_caller_error(reg, declared, actual) is None,
        amount > v.locked_balance,
    ensures
        unlock_error(v, reg, declared, actual, amount) == Some(ErrorCode::InsufficientFunds),
{
}

/// The owner cannot close a vault that still holds funds: closing fails with
/// `NonZeroBalance` whenever the total or the locked balance is positive.
pub proof fn lemma_close_requires_empty(v: VaultView, custody_amount: u64)
    requires
        v.total_balance > 0 || v.locked_balance > 0,
    ensures
        close_vault_error(v, v.owner, custody_amount) == Some(ErrorCode::NonZeroBalance),
{
}

/// One operation applied to a vault, with its request values. The transfer
/// legs name the other vault as it was before the transfer. `Configure`
/// stands for the owner and governance configuration operations (delegates,
/// multisig, withdrawal policies and requests, unit of account), which leave
/// the balances, timelocks and yield position as they were.
pub enum LedgerStep {
    Deposit { authority: Pubkey, cosigners: Seq<SignerAccount>, amount: u64 },
    Withdraw {
        reg: RegistryView,
        vault_key: Pubkey,
        authority: Pubkey,
        cosigners: Seq<SignerAccount>,
        summaries: Seq<SummaryAccount>,
        recipient: Pubkey,
        amount: u64,
        now: i64,
    },
    EmergencyWithdraw { governance: Pubkey, authority: Pubkey, amount: u64 },
    Lock { reg: RegistryView, declared: Pubkey, actual: Option<Pubkey>, amount: u64 },
    Unlock { reg: RegistryView, declared: Pubkey, actual: Option<Pubkey>, amount: u64 },
    TransferOut {
        to: VaultView,
        reg: RegistryView,
        declared: Pubkey,
        actual: Option<Pubkey>,
        amount: u64,
    },
    TransferIn {
        from: VaultView,
        reg: RegistryView,
        declared: Pubkey,
        actual: Option<Pubkey>,
        amount: u64,
    },
    ScheduleTimelock {
        authority: Pubkey,
        cosigners: Seq<SignerAccount>,
        amount: u64,
        duration_seconds: i64,
        now: i64,
    },
    ReleaseTimelocks { authority: Pubkey, cosigners: Seq<SignerAccount>, now: i64 },
    YieldDeposit {
        reg: RegistryView,
        authority: Pubkey,
        cosigners: Seq<SignerAccount>,
        program: Pubkey,
        amount: u64,
    },
    YieldWithdraw {
        reg: RegistryView,
        authority: Pubkey,
        cosigners: Seq<SignerAccount>,
        program: Pubkey,
        amount: u64,
    },
    CompoundYield {
        reg: RegistryView,
        authority: Pubkey,
        cosigners: Seq<SignerAccount>,
        program: Pubkey,
        amount: u64,
        now: i64,
    },
    Configure { next: VaultView },
}

/// The vault after `s`, as the operation's contract states it: its effect
/// when the operation succeeds, the vault unchanged when it is refused.
pub open spec fn step(v: VaultView, s: LedgerStep) -> VaultView {
    match s {
        LedgerStep::Deposit { authority, cosigners, amount } => if deposit_error(
            v,
            authority,
            cosigners,
            amount,
        ) is None {
            deposited(v, amount)
        } else {
            v
        },
        LedgerStep::Withdraw {
            reg,
            vault_key,
            authority,
            cosigners,
            summaries,
            recipient,
            amount,
            now,
        } => if withdraw_error(
            v,
            reg,
            vault_key,
            authority,
            cosigners,
            summaries,
            recipient,
            amount,
            now,
        ) is None {
            withdrawn(v, amount, now)
        } else {
            v
        },
        LedgerStep::EmergencyWithdraw { governance, authority, amount } => if emergency_withdraw_error(
            v,
            governance,
            authority,
            amount,
        ) is None {
            emergency_withdrawn(v, governance, authority, amount)
        } else {
            v
        },
        LedgerStep::Lock { reg, declared, actual, amount } => if lock_error(
            v,
            reg,
            declared,
            actual,
            amount,
        ) is None {
            locked(v, amount)
        } else {
            v
        },
        LedgerStep::Unlock { reg, declared, actual, amount } => if unlock_error(
            v,
            reg,
            declared,
            actual,
            amount,
        ) is None {
            unlocked(v, amount)
        } else {
            v
        },
        LedgerStep::TransferOut { to, reg, declared, actual, amount } => if transfer_error(
            v,
            to,
            reg,
            declared,
            actual,
            amount,
        ) is None {
            transferred_out(v, amount)
        } else {
            v
        },
        LedgerStep::TransferIn { from, reg, declared, actual, amount } => if transfer_error(
            from,
            v,
            reg,
            declared,
            actual,
            amount,
        ) is None {
            transferred_in(v, amount)
        } else {
            v
        },
        LedgerStep::ScheduleTimelock { authority, cosigners, amount, duration_seconds, now } =>
            if schedule_timelock_error(v, authority, cosigners, amount, duration_seconds, now) is None {
            timelock_scheduled(v, amount, duration_seconds, now)
        } else {
            v
        },
        LedgerStep::ReleaseTimelocks { authority, cosigners, now } => if release_timelocks_error(
            v,
            authority,
            cosigners,
            now,
        ) is None {
            released(v, now)
        } else {
            v
        },
        LedgerStep::YieldDeposit { reg, authority, cosigners, program, amount } =>
            if yield_deposit_error(v, reg, authority, cosigners, program, amount) is None {
            yield_deposited(v, program, amount)
        } else {
            v
        },
        LedgerStep::YieldWithdraw { reg, authority, cosigners, program, amount } =>
            if yield_withdraw_error(v, reg, authority, cosigners, program, amount) is None {
            yield_withdrawn(v, amount)
        } else {
            v
        },
        LedgerStep::CompoundYield { reg, authority, cosigners, program, amount, now } =>
            if compound_yield_error(v, reg, authority, cosigners, program, amount) is None {
            yield_compounded(v, program, amount, now)
        } else {
            v
        },
        LedgerStep::Configure { next } => if next.total_balance == v.total_balance
            && next.locked_balance == v.locked_balance && next.available_balance
            == v.available_balance && next.timelocks == v.timelocks
            && next.yield_deposited_balance == v.yield_deposited_balance
            && next.yield_accrued_balance == v.yield_accrued_balance {
            next
        } else {
            v
        },
    }
}

/// The vault after the steps, applied in order.
pub open spec fn run(v: VaultView, steps: Seq<LedgerStep>) -> VaultView
    decreases steps.len(),
{
    if steps.len() == 0 {
        v
    } else {
        step(run(v, steps.drop_last()), steps.last())
    }
}

/// Every operation keeps `total_balance == locked_balance + available_balance`.
pub proof fn lemma_step_balanced(v: VaultView, s: LedgerStep)
    requires
        v.balanced(),
    ensures
        step(v, s).balanced(),
{
    match s {
        LedgerStep::Withdraw { now, .. } => {
            lemma_matured_nonneg(v.timelocks, now);
        },
        LedgerStep::ReleaseTimelocks { now, .. } => {
            lemma_matured_nonneg(v.timelocks, now);
        },
        _ => {},
    }
}

/// For all operation sequences from a new vault, every reached state
/// satisfies `total_balance == locked_balance + available_balance`.
pub proof fn lemma_every_sequence_balanced(
    v0: VaultView,
    owner: Pubkey,
    token_account: Pubkey,
    usdt_mint: Pubkey,
    bump: u8,
    now: i64,
    steps: Seq<LedgerStep>,
)
    requires
        is_new_vault(v0, owner, token_account, usdt_mint, bump, now),
    ensures
        run(v0, steps).balanced(),
    decreases steps.len(),
{
    if steps.len() > 0 {
        lemma_every_sequence_balanced(
            v0,
            owner,
            token_account,
            usdt_mint,
            bump,
            now,
            steps.drop_last(),
        );
        lemma_step_balanced(run(v0, steps.drop_last()), steps.last());
    }
}

} // verus!
