//! Yield bookkeeping: available funds routed to a whitelisted yield program
//! and back, and accrued rewards compounded into the deposited position.
use vstd::prelude::*;

use crate::auth::{authorize_vault_signer, vault_signer_authorized, SignerAccount};
use crate::error::ErrorCode;
use crate::keyset::contains_key;
use crate::pubkey::Pubkey;
use crate::state::{CollateralVault, RegistryView, VaultAuthority, VaultView};

verus! {

/// The checks that the yield operations share, in this order: the signer,
/// then the yield program's place on the registry's whitelist.
pub open spec fn yield_gate_error(
    v: VaultView,
    reg: RegistryView,
    authority: Pubkey,
    cosigners: Seq<SignerAccount>,
    program: Pubkey,
) -> Option<ErrorCode> {
    if !vault_signer_authorized(v, authority, cosigners) {
        Some(ErrorCode::Unauthorized)
    } else if !reg.yield_whitelist.contains(program) {
        Some(ErrorCode::YieldProgramNotWhitelisted)
    } else {
        None
    }
}

fn check_yield_gate(
    vault: &CollateralVault,
    registry: &VaultAuthority,
    authority: &Pubkey,
    cosigners: &Vec<SignerAccount>,
    program: &Pubkey,
) -> (r: Result<(), ErrorCode>)
    ensures
        r == (match yield_gate_error(vault@, registry@, *authority, cosigners@, *program) {
            Some(e) => Err(e),
            None => Ok(()),
        }),
{
    authorize_vault_signer(vault, authority, cosigners)?;
    if !contains_key(&registry.yield_whitelist, program) {
        return Err(ErrorCode::YieldProgramNotWhitelisted);
    }
    Ok(())
}

/// The yield program recorded after `program` was used: the first one used
/// stays until explicitly changed.
pub open spec fn recorded_program(v: VaultView, program: Pubkey) -> Pubkey {
    if v.active_yield_program.is_unset() {
        program
    } else {
        v.active_yield_program
    }
}

fn record_program(vault: &mut CollateralVault, program: &Pubkey)
    ensures
        final(vault)@ == (VaultView {
            active_yield_program: recorded_program(old(vault)@, *program),
            ..old(vault)@
        }),
{
    if vault.active_yield_program.is_default() {
        vault.active_yield_program = *program;
    }
}

/// Why `yield_deposit` refuses, checked in this order.
pub open spec fn yield_deposit_error(
    v: VaultView,
    reg: RegistryView,
    authority: Pubkey,
    cosigners: Seq<SignerAccount>,
    program: Pubkey,
    amount: u64,
) -> Option<ErrorCode> {
    if amount == 0 {
        Some(ErrorCode::InvalidAmount)
    } else if yield_gate_error(v, reg, authority, cosigners, program) is Some {
        yield_gate_error(v, reg, authority, cosigners, program)
    } else if v.available_balance < amount {
        Some(ErrorCode::InsufficientFunds)
    } else if v.yield_deposited_balance + amount > u64::MAX {
        Some(ErrorCode::Overflow)
    } else {
        None
    }
}

/// The vault after `amount` of available funds went to `program`; they
/// leave the total with the available balance.
pub open spec fn yield_deposited(v: VaultView, program: Pubkey, amount: u64) -> VaultView {
    VaultView {
        total_balance: (v.total_balance - amount) as u64,
        available_balance: (v.available_balance - amount) as u64,
        yield_deposited_balance: (v.yield_deposited_balance + amount) as u64,
        active_yield_program: recorded_program(v, program),
        ..v
    }
}

/// Routes `amount` of available funds to a whitelisted yield program.
pub fn yield_deposit(
    vault: &mut CollateralVault,
    registry: &VaultAuthority,
    authority: &Pubkey,
    cosigners: &Vec<SignerAccount>,
    program: &Pubkey,
    amount: u64,
) -> (r: Result<(), ErrorCode>)
    requires
        old(vault)@.wf(),
    ensures
        final(vault)@.wf(),
        match r {
            Ok(()) => yield_deposit_error(
                old(vault)@,
                registry@,
                *authority,
                cosigners@,
                *program,
                amount,
            ) is None && final(vault)@ == yield_deposited(old(vault)@, *program, amount),
            Err(e) => yield_deposit_error(
                old(vault)@,
                registry@,
                *authority,
                cosigners@,
                *program,
                amount,
            ) == Some(e) && final(vault)@ == old(vault)@,
        },
{
    if amount == 0 {
        return Err(ErrorCode::InvalidAmount);
    }
    check_yield_gate(vault, registry, authority, cosigners, program)?;
    if vault.available_balance < amount {
        return Err(ErrorCode::InsufficientFunds);
    }
    let yield_total = match vault.yield_deposited_balance.checked_add(amount) {
        Some(t) => t,
        None => return Err(ErrorCode::Overflow),
    };
    vault.total_balance = vault.total_balance - amount;
    vault.available_balance = vault.available_balance - amount;
    vault.yield_deposited_balance = yield_total;
    record_program(vault, program);
    Ok(())
}

/// Why `yield_withdraw` refuses, checked in this order.
pub open spec fn yield_withdraw_error(
    v: VaultView,
    reg: RegistryView,
    authority: Pubkey,
    cosigners: Seq<SignerAccount>,
    program: Pubkey,
    amount: u64,
) -> Option<ErrorCode> {
    if amount == 0 {
        Some(ErrorCode::InvalidAmount)
    } else if yield_gate_error(v, reg, authority, cosigners, program) is Some {
        yield_gate_error(v, reg, authority, cosigners, program)
    } else if v.yield_deposited_balance < amount {
        Some(ErrorCode::InsufficientYieldBalance)
    } else if v.total_balance + amount > u64::MAX {
        Some(ErrorCode::Overflow)
    } else {
        None
    }
}

/// The vault after `amount` came back from the yield position into the
/// total and the available balance.
pub open spec fn yield_withdrawn(v: VaultView, amount: u64) -> VaultView {
    VaultView {
        total_balance: (v.total_balance + amount) as u64,
        available_balance: (v.available_balance + amount) as u64,
        yield_deposited_balance: (v.yield_deposited_balance - amount) as u64,
        ..v
    }
}

/// Returns `amount` from the yield position to the available balance.
pub fn yield_withdraw(
    vault: &mut CollateralVault,
    registry: &VaultAuthority,
    authority: &Pubkey,
    cosigners: &Vec<SignerAccount>,
    program: &Pubkey,
    amount: u64,
) -> (r: Result<(), ErrorCode>)
    requires
        old(vault)@.wf(),
    ensures
        final(vault)@.wf(),
        match r {
            Ok(()) => yield_withdraw_error(
                old(vault)@,
                registry@,
                *authority,
                cosigners@,
                *program,
                amount,
            ) is None && final(vault)@ == yield_withdrawn(old(vault)@, amount),
            Err(e) => yield_withdraw_error(
                old(vault)@,
                registry@,
                *authority,
                cosigners@,
                *program,
                amount,
            ) == Some(e) && final(vault)@ == old(vault)@,
        },
{
    if amount == 0 {
        return Err(ErrorCode::InvalidAmount);
    }
    check_yield_gate(vault, registry, authority, cosigners, program)?;
    if vault.yield_deposited_balance < amount {
        return Err(ErrorCode::InsufficientYieldBalance);
    }
    let total = match vault.total_balance.checked_add(amount) {
        Some(t) => t,
        None => return Err(ErrorCode::Overflow),
    };
    vault.total_balance = total;
    vault.yield_deposited_balance = vault.yield_deposited_balance - amount;
    vault.available_balance = vault.available_balance + amount;
    Ok(())
}

/// Why `compound_yield` refuses, checked in this order; a zero amount only
/// stamps the time.
pub open spec fn compound_yield_error(
    v: VaultView,
    reg: RegistryView,
    authority: Pubkey,
    cosigners: Seq<SignerAccount>,
    program: Pubkey,
    amount: u64,
) -> Option<ErrorCode> {
    if yield_gate_error(v, reg, authority, cosigners, program) is Some {
        yield_gate_error(v, reg, authority, cosigners, program)
    } else if v.yield_accrued_balance < amount {
        Some(ErrorCode::InsufficientYieldBalance)
    } else if v.yield_deposited_balance + amount > u64::MAX {
        Some(ErrorCode::Overflow)
    } else {
        None
    }
}

/// The vault after `amount` of accrued rewards were compounded at `now`.
pub open spec fn yield_compounded(v: VaultView, program: Pubkey, amount: u64, now: i64) -> VaultView {
    VaultView {
        yield_accrued_balance: (v.yield_accrued_balance - amount) as u64,
        yield_deposited_balance: (v.yield_deposited_balance + amount) as u64,
        last_compounded_at: now,
        active_yield_program: recorded_program(v, program),
        ..v
    }
}

/// Converts `amount` of accrued rewards into deposited yield and stamps the
/// compounding time.
pub fn compound_yield(
    vault: &mut CollateralVault,
    registry: &VaultAuthority,
    authority: &Pubkey,
    cosigners: &Vec<SignerAccount>,
    program: &Pubkey,
    amount: u64,
    now: i64,
) -> (r: Result<(), ErrorCode>)
    requires
        old(vault)@.wf(),
    ensures
        final(vault)@.wf(),
        match r {
            Ok(()) => compound_yield_error(
                old(vault)@,
                registry@,
                *authority,
                cosigners@,
                *program,
                amount,
            ) is None && final(vault)@ == yield_compounded(old(vault)@, *program, amount, now),
            Err(e) => compound_yield_error(
                old(vault)@,
                registry@,
                *authority,
                cosigners@,
                *program,
                amount,
            ) == Some(e) && final(vault)@ == old(vault)@,
        },
{
    check_yield_gate(vault, registry, authority, cosigners, program)?;
    if vault.yield_accrued_balance < amount {
        return Err(ErrorCode::InsufficientYieldBalance);
    }
    let yield_total = match vault.yield_deposited_balance.checked_add(amount) {
        Some(t) => t,
        None => return Err(ErrorCode::Overflow),
    };
    vault.yield_accrued_balance = vault.yield_accrued_balance - amount;
    vault.yield_deposited_balance = yield_total;
    vault.last_compounded_at = now;
    record_program(vault, program);
    Ok(())
}

} // verus!
