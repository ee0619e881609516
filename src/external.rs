//! Operations that allowlisted external programs perform on a vault: moving
//! funds between the available and locked partitions, and between vaults.
use vstd::prelude::*;

use crate::auth::{authorize_external_caller, external_caller_error};
use crate::error::ErrorCode;
use crate::pubkey::Pubkey;
use crate::state::{CollateralVault, RegistryView, VaultAuthority, VaultView};

verus! {

/// The checks that lock, unlock and transfer share, in this order: a non-zero
/// amount, the global freeze, the external caller.
pub open spec fn external_gate_error(
    reg: RegistryView,
    declared: Pubkey,
    actual: Option<Pubkey>,
    amount: u64,
) -> Option<ErrorCode> {
    if amount == 0 {
        Some(ErrorCode::InvalidAmount)
    } else if reg.freeze {
        Some(ErrorCode::Frozen)
    } else {
        external_caller_error(reg, declared, actual)
    }
}

fn check_external_gate(
    registry: &VaultAuthority,
    declared: &Pubkey,
    actual: &Option<Pubkey>,
    amount: u64,
) -> (r: Result<(), ErrorCode>)
    ensures
        r == (match external_gate_error(registry@, *declared, *actual, amount) {
            Some(e) => Err(e),
            None => Ok(()),
        }),
{
    if amount == 0 {
        return Err(ErrorCode::InvalidAmount);
    }
    if registry.freeze {
        return Err(ErrorCode::Frozen);
    }
    authorize_external_caller(registry, declared, actual)
}

/// Why `lock_collateral` refuses, checked in this order.
pub open spec fn lock_error(
    v: VaultView,
    reg: RegistryView,
    declared: Pubkey,
    actual: Option<Pubkey>,
    amount: u64,
) -> Option<ErrorCode> {
    if external_gate_error(reg, declared, actual, amount) is Some {
        external_gate_error(reg, declared, actual, amount)
    } else if v.available_balance < amount {
        Some(ErrorCode::InsufficientFunds)
    } else {
        None
    }
}

/// The vault after `amount` moved from available to locked.
pub open spec fn locked(v: VaultView, amount: u64) -> VaultView {
    VaultView {
        locked_balance: (v.locked_balance + amount) as u64,
        available_balance: (v.available_balance - amount) as u64,
        ..v
    }
}

/// Locks `amount` of available funds on behalf of an external program;
/// `declared` is the caller the request names, `actual` the attested one.
pub fn lock_collateral(
    vault: &mut CollateralVault,
    registry: &VaultAuthority,
    declared: &Pubkey,
    actual: &Option<Pubkey>,
    amount: u64,
) -> (r: Result<(), ErrorCode>)
    requires
        old(vault)@.wf(),
    ensures
        final(vault)@.wf(),
        match r {
            Ok(()) => lock_error(old(vault)@, registry@, *declared, *actual, amount) is None
                && final(vault)@ == locked(old(vault)@, amount),
            Err(e) => lock_error(old(vault)@, registry@, *declared, *actual, amount) == Some(e)
                && final(vault)@ == old(vault)@,
        },
{
    check_external_gate(registry, declared, actual, amount)?;
    if vault.available_balance < amount {
        return Err(ErrorCode::InsufficientFunds);
    }
    vault.locked_balance = vault.locked_balance + amount;
    vault.available_balance = vault.available_balance - amount;
    Ok(())
}

/// Why `unlock_collateral` refuses, checked in this order.
pub open spec fn unlock_error(
    v: VaultView,
    reg: RegistryView,
    declared: Pubkey,
    actual: Option<Pubkey>,
    amount: u64,
) -> Option<ErrorCode> {
    if external_gate_error(reg, declared, actual, amount) is Some {
        external_gate_error(reg, declared, actual, amount)
    } else if v.locked_balance < amount {
        Some(ErrorCode::InsufficientFunds)
    } else {
        None
    }
}

/// The vault after `amount` moved from locked to available.
pub open spec fn unlocked(v: VaultView, amount: u64) -> VaultView {
    VaultView {
        locked_balance: (v.locked_balance - amount) as u64,
        available_balance: (v.available_balance + amount) as u64,
        ..v
    }
}

/// Unlocks `amount` of locked funds on behalf of an external program.
pub fn unlock_collateral(
    vault: &mut CollateralVault,
    registry: &VaultAuthority,
    declared: &Pubkey,
    actual: &Option<Pubkey>,
    amount: u64,
) -> (r: Result<(), ErrorCode>)
    requires
        old(vault)@.wf(),
    ensures
        final(vault)@.wf(),
        match r {
            Ok(()) => unlock_error(old(vault)@, registry@, *declared, *actual, amount) is None
                && final(vault)@ == unlocked(old(vault)@, amount),
            Err(e) => unlock_error(old(vault)@, registry@, *declared, *actual, amount) == Some(e)
                && final(vault)@ == old(vault)@,
        },
{
    check_external_gate(registry, declared, actual, amount)?;
    if vault.locked_balance < amount {
        return Err(ErrorCode::InsufficientFunds);
    }
    vault.locked_balance = vault.locked_balance - amount;
    vault.available_balance = vault.available_balance + amount;
    Ok(())
}

/// Why `transfer_collateral` refuses, checked in this order.
pub open spec fn transfer_error(
    from: VaultView,
    to: VaultView,
    reg: RegistryView,
    declared: Pubkey,
    actual: Option<Pubkey>,
    amount: u64,
) -> Option<ErrorCode> {
    if external_gate_error(reg, declared, actual, amount) is Some {
        external_gate_error(reg, declared, actual, amount)
    } else if from.usdt_mint != to.usdt_mint {
        Some(ErrorCode::Unauthorized)
    } else if from.available_balance < amount {
        Some(ErrorCode::InsufficientFunds)
    } else if to.total_balance + amount > u64::MAX {
        Some(ErrorCode::Overflow)
    } else {
        None
    }
}

/// The sending vault after a transfer of `amount`.
pub open spec fn transferred_out(v: VaultView, amount: u64) -> VaultView {
    VaultView {
        total_balance: (v.total_balance - amount) as u64,
        available_balance: (v.available_balance - amount) as u64,
        ..v
    }
}

/// The receiving vault after a transfer of `amount`.
pub open spec fn transferred_in(v: VaultView, amount: u64) -> VaultView {
    VaultView {
        total_balance: (v.total_balance + amount) as u64,
        available_balance: (v.available_balance + amount) as u64,
        ..v
    }
}

/// Moves `amount` of available funds from one vault to another, both legs or
/// neither.
pub fn transfer_collateral(
    from_vault: &mut CollateralVault,
    to_vault: &mut CollateralVault,
    registry: &VaultAuthority,
    declared: &Pubkey,
    actual: &Option<Pubkey>,
    amount: u64,
) -> (r: Result<(), ErrorCode>)
    requires
        old(from_vault)@.wf(),
        old(to_vault)@.wf(),
    ensures
        final(from_vault)@.wf(),
        final(to_vault)@.wf(),
        match r {
            Ok(()) => transfer_error(
                old(from_vault)@,
                old(to_vault)@,
                registry@,
                *declared,
                *actual,
                amount,
            ) is None && final(from_vault)@ == transferred_out(old(from_vault)@, amount)
                && final(to_vault)@ == transferred_in(old(to_vault)@, amount),
            Err(e) => transfer_error(
                old(from_vault)@,
                old(to_vault)@,
                registry@,
                *declared,
                *actual,
                amount,
            ) == Some(e) && final(from_vault)@ == old(from_vault)@ && final(to_vault)@ == old(
                to_vault,
            )@,
        },
{
    check_external_gate(registry, declared, actual, amount)?;
    if from_vault.usdt_mint != to_vault.usdt_mint {
        return Err(ErrorCode::Unauthorized);
    }
    if from_vault.available_balance < amount {
        return Err(ErrorCode::InsufficientFunds);
    }
    let to_total = match to_vault.total_balance.checked_add(amount) {
        Some(t) => t,
        None => return Err(ErrorCode::Overflow),
    };
    from_vault.total_balance = from_vault.total_balance - amount;
    from_vault.available_balance = from_vault.available_balance - amount;
    to_vault.total_balance = to_total;
    to_vault.available_balance = to_vault.available_balance + amount;
    Ok(())
}

} // verus!
