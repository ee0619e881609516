//! The vault ledger's owner-side operations: creation, deposit, withdrawal,
//! emergency withdrawal, closing and re-pointing the unit of account.
use vstd::prelude::*;

use crate::auth::{authorize_vault_signer, vault_signer_authorized, SignerAccount};
use crate::constants::MIN_DEPOSIT;
use crate::error::ErrorCode;
use crate::keyset::contains_key;
use crate::pubkey::Pubkey;
use crate::state::{CollateralVault, RegistryView, VaultAuthority, VaultView};
use crate::summary::{check_position_summaries, summaries_error, SummaryAccount};
use crate::timelock::{
    lemma_matured_nonneg, matured_total, release_matured, release_overflows, released,
};
use crate::withdraw_policy::{
    consume_matured, consume_pending, lemma_consume_shrinks, matured_pending,
    matured_pending_total, rate_limited, used_in_window, window_resets,
};

verus! {

/// `v` is a freshly created vault: zero balances, no yield program, no
/// multisig, delegates or policies.
pub open spec fn is_new_vault(
    v: VaultView,
    owner: Pubkey,
    token_account: Pubkey,
    usdt_mint: Pubkey,
    bump: u8,
    now: i64,
) -> bool {
    v.active_yield_program.is_unset() && v == VaultView {
        owner,
        token_account,
        usdt_mint,
        total_balance: 0,
        locked_balance: 0,
        available_balance: 0,
        total_deposited: 0,
        total_withdrawn: 0,
        yield_deposited_balance: 0,
        yield_accrued_balance: 0,
        last_compounded_at: 0,
        active_yield_program: v.active_yield_program,
        created_at: now,
        bump,
        multisig_threshold: 0,
        multisig_signers: seq![],
        delegates: seq![],
        timelocks: seq![],
        min_withdraw_delay_seconds: 0,
        pending_withdrawals: seq![],
        withdraw_whitelist: seq![],
        rate_window_seconds: 0,
        rate_limit_amount: 0,
        last_withdrawal_window_start: 0,
        withdrawn_in_window: 0,
    }
}

/// Creates the vault of `owner`, created at `now`.
pub fn initialize_vault(
    owner: Pubkey,
    token_account: Pubkey,
    usdt_mint: Pubkey,
    bump: u8,
    now: i64,
) -> (v: CollateralVault)
    ensures
        is_new_vault(v@, owner, token_account, usdt_mint, bump, now),
        v@.wf(),
{
    let v = CollateralVault {
        owner,
        token_account,
        usdt_mint,
        total_balance: 0,
        locked_balance: 0,
        available_balance: 0,
        total_deposited: 0,
        total_withdrawn: 0,
        yield_deposited_balance: 0,
        yield_accrued_balance: 0,
        last_compounded_at: 0,
        active_yield_program: Pubkey::unset(),
        created_at: now,
        bump,
        multisig_threshold: 0,
        multisig_signers: Vec::new(),
        delegates: Vec::new(),
        timelocks: Vec::new(),
        min_withdraw_delay_seconds: 0,
        pending_withdrawals: Vec::new(),
        withdraw_whitelist: Vec::new(),
        rate_window_seconds: 0,
        rate_limit_amount: 0,
        last_withdrawal_window_start: 0,
        withdrawn_in_window: 0,
    };
    v
}

/// Why `deposit` refuses, checked in this order.
pub open spec fn deposit_error(
    v: VaultView,
    authority: Pubkey,
    cosigners: Seq<SignerAccount>,
    amount: u64,
) -> Option<ErrorCode> {
    if amount < MIN_DEPOSIT {
        Some(ErrorCode::InvalidAmount)
    } else if !vault_signer_authorized(v, authority, cosigners) {
        Some(ErrorCode::Unauthorized)
    } else if v.total_balance + amount > u64::MAX || v.total_deposited + amount > u64::MAX {
        Some(ErrorCode::Overflow)
    } else {
        None
    }
}

/// The vault after `amount` came into custody.
pub open spec fn deposited(v: VaultView, amount: u64) -> VaultView {
    VaultView {
        total_balance: (v.total_balance + amount) as u64,
        available_balance: (v.available_balance + amount) as u64,
        total_deposited: (v.total_deposited + amount) as u64,
        ..v
    }
}

/// Records `amount` brought into custody as available funds.
pub fn deposit(
    vault: &mut CollateralVault,
    authority: &Pubkey,
    cosigners: &Vec<SignerAccount>,
    amount: u64,
) -> (r: Result<(), ErrorCode>)
    requires
        old(vault)@.wf(),
    ensures
        final(vault)@.wf(),
        match r {
            Ok(()) => deposit_error(old(vault)@, *authority, cosigners@, amount) is None
                && final(vault)@ == deposited(old(vault)@, amount),
            Err(e) => deposit_error(old(vault)@, *authority, cosigners@, amount) == Some(e)
                && final(vault)@ == old(vault)@,
        },
{
    if amount < MIN_DEPOSIT {
        return Err(ErrorCode::InvalidAmount);
    }
    authorize_vault_signer(vault, authority, cosigners)?;
    let total = match vault.total_balance.checked_add(amount) {
        Some(t) => t,
        None => return Err(ErrorCode::Overflow),
    };
    let deposited_total = match vault.total_deposited.checked_add(amount) {
        Some(t) => t,
        None => return Err(ErrorCode::Overflow),
    };
    vault.total_balance = total;
    vault.available_balance = vault.available_balance + amount;
    vault.total_deposited = deposited_total;
    Ok(())
}

/// Why `withdraw` refuses, checked in this order: the amount; at least as
/// many summary accounts as allowlisted programs; the signer; room in the
/// total for the matured timelocks; then, with those counted as available:
/// the summaries; funds; no locked
/// funds; the recipient; the minimum-delay queue; the rate limit; the audit
/// counter.
pub open spec fn withdraw_error(
    v: VaultView,
    reg: RegistryView,
    vault_key: Pubkey,
    authority: Pubkey,
    cosigners: Seq<SignerAccount>,
    summaries: Seq<SummaryAccount>,
    recipient: Pubkey,
    amount: u64,
    now: i64,
) -> Option<ErrorCode> {
    let available = v.available_balance + matured_total(v.timelocks, now);
    let delayed = v.min_withdraw_delay_seconds > 0;
    let matured = matured_pending_total(v.pending_withdrawals, now);
    let used = used_in_window(v, now) + amount;
    if amount == 0 {
        Some(ErrorCode::InvalidAmount)
    } else if summaries.len() < reg.authorized_programs.len() {
        Some(ErrorCode::PositionSummaryMissing)
    } else if !vault_signer_authorized(v, authority, cosigners) {
        Some(ErrorCode::Unauthorized)
    } else if release_overflows(v, now) {
        Some(ErrorCode::Overflow)
    } else if summaries_error(summaries, reg.authorized_programs, vault_key, v.owner) is Some {
        summaries_error(summaries, reg.authorized_programs, vault_key, v.owner)
    } else if available < amount {
        Some(ErrorCode::InsufficientFunds)
    } else if v.locked_balance != 0 {
        Some(ErrorCode::OpenPositionsExist)
    } else if recipient != v.owner && !v.withdraw_whitelist.contains(recipient) {
        Some(ErrorCode::Unauthorized)
    } else if delayed && matured > u64::MAX {
        Some(ErrorCode::Overflow)
    } else if delayed && matured < amount {
        Some(ErrorCode::Unauthorized)
    } else if rate_limited(v) && used > u64::MAX {
        Some(ErrorCode::Overflow)
    } else if rate_limited(v) && used > v.rate_limit_amount {
        Some(ErrorCode::Unauthorized)
    } else if v.total_withdrawn + amount > u64::MAX {
        Some(ErrorCode::Overflow)
    } else {
        None
    }
}

/// The vault after a withdrawal of `amount` at `now`: matured timelocks
/// released, the amount paid out of the available balance, the delay queue
/// consumed and the rate window charged where those policies are on.
pub open spec fn withdrawn(v: VaultView, amount: u64, now: i64) -> VaultView {
    let r = released(v, now);
    VaultView {
        total_balance: (r.total_balance - amount) as u64,
        available_balance: (r.available_balance - amount) as u64,
        total_withdrawn: (v.total_withdrawn + amount) as u64,
        timelocks: r.timelocks,
        pending_withdrawals: if v.min_withdraw_delay_seconds > 0 {
            consume_pending(v.pending_withdrawals, now, amount as int)
        } else {
            v.pending_withdrawals
        },
        last_withdrawal_window_start: if rate_limited(v) && window_resets(v, now) {
            now
        } else {
            v.last_withdrawal_window_start
        },
        withdrawn_in_window: if rate_limited(v) {
            (used_in_window(v, now) + amount) as u64
        } else {
            v.withdrawn_in_window
        },
        ..v
    }
}

/// Pays `amount` of available funds out of custody to `recipient`.
///
/// `cosigners` are the accounts presented for multisig approval, `summaries`
/// the position summary accounts presented for the allowlisted programs, and
/// `vault_key` the vault's own address, which the summaries must name.
pub fn withdraw(
    vault: &mut CollateralVault,
    registry: &VaultAuthority,
    vault_key: &Pubkey,
    authority: &Pubkey,
    cosigners: &Vec<SignerAccount>,
    summaries: &Vec<SummaryAccount>,
    recipient: &Pubkey,
    amount: u64,
    now: i64,
) -> (r: Result<(), ErrorCode>)
    requires
        old(vault)@.wf(),
    ensures
        final(vault)@.wf(),
        match r {
            Ok(()) => withdraw_error(
                old(vault)@,
                registry@,
                *vault_key,
                *authority,
                cosigners@,
                summaries@,
                *recipient,
                amount,
                now,
            ) is None && final(vault)@ == withdrawn(old(vault)@, amount, now),
            Err(e) => withdraw_error(
                old(vault)@,
                registry@,
                *vault_key,
                *authority,
                cosigners@,
                summaries@,
                *recipient,
                amount,
                now,
            ) == Some(e) && final(vault)@ == old(vault)@,
        },
{
    if amount == 0 {
        return Err(ErrorCode::InvalidAmount);
    }
    if summaries.len() < registry.authorized_programs.len() {
        return Err(ErrorCode::PositionSummaryMissing);
    }
    authorize_vault_signer(vault, authority, cosigners)?;
    proof {
        lemma_matured_nonneg(vault.timelocks@, now);
    }
    let (released_total, remaining_locks) = match release_matured(&vault.timelocks, now) {
        Some(p) => p,
        None => return Err(ErrorCode::Overflow),
    };
    let total = match vault.total_balance.checked_add(released_total) {
        Some(t) => t,
        None => return Err(ErrorCode::Overflow),
    };
    let available = vault.available_balance + released_total;
    check_position_summaries(summaries, &registry.authorized_programs, vault_key, &vault.owner)?;
    if available < amount {
        return Err(ErrorCode::InsufficientFunds);
    }
    if vault.locked_balance != 0 {
        return Err(ErrorCode::OpenPositionsExist);
    }
    if *recipient != vault.owner && !contains_key(&vault.withdraw_whitelist, recipient) {
        return Err(ErrorCode::Unauthorized);
    }
    let delayed = vault.min_withdraw_delay_seconds > 0;
    let mut pending = None;
    if delayed {
        let matured = match matured_pending(&vault.pending_withdrawals, now) {
            None => return Err(ErrorCode::Overflow),
            Some(m) => m,
        };
        if matured < amount {
            return Err(ErrorCode::Unauthorized);
        }
        proof {
            lemma_consume_shrinks(vault.pending_withdrawals@, now, amount as int);
        }
        pending = Some(consume_matured(&vault.pending_withdrawals, now, amount));
    }
    let mut window_start = vault.last_withdrawal_window_start;
    let mut used = vault.withdrawn_in_window;
    if vault.rate_window_seconds > 0 && vault.rate_limit_amount > 0 {
        if window_start == 0 || now as i128 >= window_start as i128
            + vault.rate_window_seconds as i128 {
            window_start = now;
            used = 0;
        }
        match used.checked_add(amount) {
            None => return Err(ErrorCode::Overflow),
            Some(u) => {
                if u > vault.rate_limit_amount {
                    return Err(ErrorCode::Unauthorized);
                }
                used = u;
            },
        }
    }
    let withdrawn_total = match vault.total_withdrawn.checked_add(amount) {
        Some(t) => t,
        None => return Err(ErrorCode::Overflow),
    };
    vault.total_balance = total - amount;
    vault.available_balance = available - amount;
    vault.total_withdrawn = withdrawn_total;
    vault.timelocks = remaining_locks;
    match pending {
        Some(p) => vault.pending_withdrawals = p,
        None => {},
    }
    vault.last_withdrawal_window_start = window_start;
    vault.withdrawn_in_window = used;
    Ok(())
}

/// Why `emergency_withdraw` refuses, checked in this order. Governance may
/// drain locked funds once the available ones are spent; the owner is held
/// to the ordinary rules.
pub open spec fn emergency_withdraw_error(
    v: VaultView,
    governance: Pubkey,
    authority: Pubkey,
    amount: u64,
) -> Option<ErrorCode> {
    if amount == 0 {
        Some(ErrorCode::InvalidAmount)
    } else if authority != governance && authority != v.owner {
        Some(ErrorCode::Unauthorized)
    } else if authority == governance {
        if v.total_balance < amount {
            Some(ErrorCode::InsufficientFunds)
        } else if v.total_withdrawn + amount > u64::MAX {
            Some(ErrorCode::Overflow)
        } else {
            None
        }
    } else if v.available_balance < amount {
        Some(ErrorCode::InsufficientFunds)
    } else if v.locked_balance != 0 {
        Some(ErrorCode::OpenPositionsExist)
    } else if v.total_withdrawn + amount > u64::MAX {
        Some(ErrorCode::Overflow)
    } else {
        None
    }
}

/// The vault after an emergency withdrawal of `amount` by `authority`.
pub open spec fn emergency_withdrawn(
    v: VaultView,
    governance: Pubkey,
    authority: Pubkey,
    amount: u64,
) -> VaultView {
    let from_available = if amount <= v.available_balance {
        amount as int
    } else {
        v.available_balance as int
    };
    if authority == governance {
        VaultView {
            total_balance: (v.total_balance - amount) as u64,
            available_balance: (v.available_balance - from_available) as u64,
            locked_balance: (v.locked_balance - (amount - from_available)) as u64,
            total_withdrawn: (v.total_withdrawn + amount) as u64,
            ..v
        }
    } else {
        VaultView {
            total_balance: (v.total_balance - amount) as u64,
            available_balance: (v.available_balance - amount) as u64,
            total_withdrawn: (v.total_withdrawn + amount) as u64,
            ..v
        }
    }
}

/// Pays out `amount` on the request of the owner or of governance;
/// governance bypasses the no-locked-funds rule and the withdrawal policies,
/// is capped only by the total, and takes from the available balance first
/// and then from the locked one.
pub fn emergency_withdraw(
    vault: &mut CollateralVault,
    registry: &VaultAuthority,
    authority: &Pubkey,
    amount: u64,
) -> (r: Result<(), ErrorCode>)
    requires
        old(vault)@.wf(),
    ensures
        final(vault)@.wf(),
        match r {
            Ok(()) => emergency_withdraw_error(old(vault)@, registry.governance, *authority, amount)
                is None && final(vault)@ == emergency_withdrawn(
                old(vault)@,
                registry.governance,
                *authority,
                amount,
            ),
            Err(e) => emergency_withdraw_error(
                old(vault)@,
                registry.governance,
                *authority,
                amount,
            ) == Some(e) && final(vault)@ == old(vault)@,
        },
{
    if amount == 0 {
        return Err(ErrorCode::InvalidAmount);
    }
    let is_governance = *authority == registry.governance;
    let is_owner = *authority == vault.owner;
    if !is_governance && !is_owner {
        return Err(ErrorCode::Unauthorized);
    }
    if is_governance {
        if vault.total_balance < amount {
            return Err(ErrorCode::InsufficientFunds);
        }
        let from_available = if amount <= vault.available_balance {
            amount
        } else {
            vault.available_balance
        };
        let from_locked = amount - from_available;
        let withdrawn_total = match vault.total_withdrawn.checked_add(amount) {
            Some(t) => t,
            None => return Err(ErrorCode::Overflow),
        };
        vault.available_balance = vault.available_balance - from_available;
        vault.locked_balance = vault.locked_balance - from_locked;
        vault.total_balance = vault.total_balance - amount;
        vault.total_withdrawn = withdrawn_total;
    } else {
        if vault.available_balance < amount {
            return Err(ErrorCode::InsufficientFunds);
        }
        if vault.locked_balance != 0 {
            return Err(ErrorCode::OpenPositionsExist);
        }
        let withdrawn_total = match vault.total_withdrawn.checked_add(amount) {
            Some(t) => t,
            None => return Err(ErrorCode::Overflow),
        };
        vault.total_balance = vault.total_balance - amount;
        vault.available_balance = vault.available_balance - amount;
        vault.total_withdrawn = withdrawn_total;
    }
    Ok(())
}

/// Why `close_vault` refuses, checked in this order: only the owner closes,
/// and only a vault with no funds left in it or in its custody account.
pub open spec fn close_vault_error(v: VaultView, signer: Pubkey, custody_amount: u64) -> Option<
    ErrorCode,
> {
    if signer != v.owner {
        Some(ErrorCode::Unauthorized)
    } else if v.total_balance != 0 || v.locked_balance != 0 || custody_amount != 0 {
        Some(ErrorCode::NonZeroBalance)
    } else {
        None
    }
}

/// Decides whether the vault may be destroyed; `custody_amount` is what its
/// custody account still holds.
pub fn close_vault(vault: &CollateralVault, signer: &Pubkey, custody_amount: u64) -> (r: Result<
    (),
    ErrorCode,
>)
    ensures
        r == (match close_vault_error(vault@, *signer, custody_amount) {
            Some(e) => Err(e),
            None => Ok(()),
        }),
        *signer == vault.owner && (vault.total_balance > 0 || vault.locked_balance > 0) ==> r
            == Err::<(), ErrorCode>(ErrorCode::NonZeroBalance),
{
    if *signer != vault.owner {
        return Err(ErrorCode::Unauthorized);
    }
    if vault.total_balance != 0 || vault.locked_balance != 0 || custody_amount != 0 {
        return Err(ErrorCode::NonZeroBalance);
    }
    Ok(())
}

/// Points an empty vault at another unit of account and custody account;
/// governance only.
pub fn update_usdt_mint(
    vault: &mut CollateralVault,
    registry: &VaultAuthority,
    signer: &Pubkey,
    new_mint: Pubkey,
    new_token_account: Pubkey,
) -> (r: Result<(), ErrorCode>)
    requires
        old(vault)@.wf(),
    ensures
        final(vault)@.wf(),
        r == (if *signer != registry.governance {
            Err(ErrorCode::Unauthorized)
        } else if old(vault).total_balance != 0 || old(vault).locked_balance != 0 {
            Err(ErrorCode::NonZeroBalance)
        } else {
            Ok(())
        }),
        r is Ok ==> final(vault)@ == (VaultView {
            usdt_mint: new_mint,
            token_account: new_token_account,
            ..old(vault)@
        }),
        r is Err ==> final(vault)@ == old(vault)@,
{
    if *signer != registry.governance {
        return Err(ErrorCode::Unauthorized);
    }
    if vault.total_balance != 0 || vault.locked_balance != 0 {
        return Err(ErrorCode::NonZeroBalance);
    }
    vault.usdt_mint = new_mint;
    vault.token_account = new_token_account;
    Ok(())
}

} // verus!
