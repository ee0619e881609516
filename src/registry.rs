//! The authority registry and its governance-signed administration.
use vstd::prelude::*;

use crate::constants::MAX_AUTHORIZED_PROGRAMS;
use crate::error::ErrorCode;
use crate::keyset::{all_distinct, insert_key, remove_key, swap_removed};
use crate::pubkey::Pubkey;
use crate::state::{RegistryView, VaultAuthority};

verus! {

/// Creates the registry with `governance` as its sole admin signer; the
/// initial allowlist must be a set within capacity (`Overflow` when too long,
/// `AlreadyExists` when a program is named twice).
pub fn initialize_vault_authority(
    governance: Pubkey,
    authorized_programs: Vec<Pubkey>,
    freeze: Option<bool>,
    bump: u8,
) -> (r: Result<VaultAuthority, ErrorCode>)
    ensures
        match r {
            Ok(va) => {
                &&& authorized_programs@.len() <= MAX_AUTHORIZED_PROGRAMS
                &&& authorized_programs@.no_duplicates()
                &&& va@.wf()
                &&& va@ == (RegistryView {
                    governance,
                    authorized_programs: authorized_programs@,
                    bump,
                    freeze: freeze == Some(true),
                    cpi_enforced: false,
                    yield_whitelist: seq![],
                    risk_level: 0,
                })
            },
            Err(e) => e == (if authorized_programs@.len() > MAX_AUTHORIZED_PROGRAMS {
                ErrorCode::Overflow
            } else {
                ErrorCode::AlreadyExists
            }) && !(authorized_programs@.len() <= MAX_AUTHORIZED_PROGRAMS
                && authorized_programs@.no_duplicates()),
        },
{
    if authorized_programs.len() > MAX_AUTHORIZED_PROGRAMS {
        return Err(ErrorCode::Overflow);
    }
    if !all_distinct(&authorized_programs) {
        return Err(ErrorCode::AlreadyExists);
    }
    let freeze = match freeze {
        Some(f) => f,
        None => false,
    };
    let va = VaultAuthority {
        governance,
        authorized_programs,
        bump,
        freeze,
        cpi_enforced: false,
        yield_whitelist: Vec::new(),
        risk_level: 0,
    };
    assert(va@.yield_whitelist =~= Seq::<Pubkey>::empty());
    Ok(va)
}

/// Adds a program to the external caller allowlist.
pub fn add_authorized_program(registry: &mut VaultAuthority, signer: &Pubkey, program: Pubkey) -> (r:
    Result<(), ErrorCode>)
    requires
        old(registry)@.wf(),
    ensures
        final(registry)@.wf(),
        r == (if *signer != old(registry).governance {
            Err(ErrorCode::Unauthorized)
        } else if old(registry)@.authorized_programs.contains(program) {
            Err(ErrorCode::AlreadyExists)
        } else if old(registry)@.authorized_programs.len() >= MAX_AUTHORIZED_PROGRAMS {
            Err(ErrorCode::Overflow)
        } else {
            Ok(())
        }),
        r is Ok ==> final(registry)@ == (RegistryView {
            authorized_programs: old(registry)@.authorized_programs.push(program),
            ..old(registry)@
        }),
        r is Err ==> final(registry)@ == old(registry)@,
{
    if *signer != registry.governance {
        return Err(ErrorCode::Unauthorized);
    }
    insert_key(&mut registry.authorized_programs, program, MAX_AUTHORIZED_PROGRAMS)
}

/// Removes a program from the external caller allowlist.
pub fn remove_authorized_program(
    registry: &mut VaultAuthority,
    signer: &Pubkey,
    program: &Pubkey,
) -> (r: Result<(), ErrorCode>)
    requires
        old(registry)@.wf(),
    ensures
        final(registry)@.wf(),
        r == (if *signer != old(registry).governance {
            Err(ErrorCode::Unauthorized)
        } else if !old(registry)@.authorized_programs.contains(*program) {
            Err(ErrorCode::NotFound)
        } else {
            Ok(())
        }),
        r is Ok ==> final(registry)@ == (RegistryView {
            authorized_programs: swap_removed(old(registry)@.authorized_programs, *program),
            ..old(registry)@
        }),
        r is Err ==> final(registry)@ == old(registry)@,
{
    if *signer != registry.governance {
        return Err(ErrorCode::Unauthorized);
    }
    remove_key(&mut registry.authorized_programs, program)
}

/// Sets or clears the global freeze.
pub fn set_freeze_flag(registry: &mut VaultAuthority, signer: &Pubkey, freeze: bool) -> (r: Result<
    (),
    ErrorCode,
>)
    requires
        old(registry)@.wf(),
    ensures
        final(registry)@.wf(),
        r == (if *signer != old(registry).governance {
            Err(ErrorCode::Unauthorized)
        } else {
            Ok(())
        }),
        r is Ok ==> final(registry)@ == (RegistryView { freeze, ..old(registry)@ }),
        r is Err ==> final(registry)@ == old(registry)@,
{
    if *signer != registry.governance {
        return Err(ErrorCode::Unauthorized);
    }
    registry.freeze = freeze;
    Ok(())
}

/// Turns caller-origin enforcement on or off.
pub fn set_cpi_enforced(registry: &mut VaultAuthority, signer: &Pubkey, cpi_enforced: bool) -> (r:
    Result<(), ErrorCode>)
    requires
        old(registry)@.wf(),
    ensures
        final(registry)@.wf(),
        r == (if *signer != old(registry).governance {
            Err(ErrorCode::Unauthorized)
        } else {
            Ok(())
        }),
        r is Ok ==> final(registry)@ == (RegistryView { cpi_enforced, ..old(registry)@ }),
        r is Err ==> final(registry)@ == old(registry)@,
{
    if *signer != registry.governance {
        return Err(ErrorCode::Unauthorized);
    }
    registry.cpi_enforced = cpi_enforced;
    Ok(())
}

/// Adds a program to the yield whitelist.
pub fn add_yield_program(registry: &mut VaultAuthority, signer: &Pubkey, program: Pubkey) -> (r:
    Result<(), ErrorCode>)
    requires
        old(registry)@.wf(),
    ensures
        final(registry)@.wf(),
        r == (if *signer != old(registry).governance {
            Err(ErrorCode::Unauthorized)
        } else if old(registry)@.yield_whitelist.contains(program) {
            Err(ErrorCode::AlreadyExists)
        } else if old(registry)@.yield_whitelist.len() >= MAX_AUTHORIZED_PROGRAMS {
            Err(ErrorCode::Overflow)
        } else {
            Ok(())
        }),
        r is Ok ==> final(registry)@ == (RegistryView {
            yield_whitelist: old(registry)@.yield_whitelist.push(program),
            ..old(registry)@
        }),
        r is Err ==> final(registry)@ == old(registry)@,
{
    if *signer != registry.governance {
        return Err(ErrorCode::Unauthorized);
    }
    insert_key(&mut registry.yield_whitelist, program, MAX_AUTHORIZED_PROGRAMS)
}

/// Removes a program from the yield whitelist.
pub fn remove_yield_program(registry: &mut VaultAuthority, signer: &Pubkey, program: &Pubkey) -> (r:
    Result<(), ErrorCode>)
    requires
        old(registry)@.wf(),
    ensures
        final(registry)@.wf(),
        r == (if *signer != old(registry).governance {
            Err(ErrorCode::Unauthorized)
        } else if !old(registry)@.yield_whitelist.contains(*program) {
            Err(ErrorCode::NotFound)
        } else {
            Ok(())
        }),
        r is Ok ==> final(registry)@ == (RegistryView {
            yield_whitelist: swap_removed(old(registry)@.yield_whitelist, *program),
            ..old(registry)@
        }),
        r is Err ==> final(registry)@ == old(registry)@,
{
    if *signer != registry.governance {
        return Err(ErrorCode::Unauthorized);
    }
    remove_key(&mut registry.yield_whitelist, program)
}

/// Sets the administrative risk level.
pub fn set_risk_level(registry: &mut VaultAuthority, signer: &Pubkey, risk_level: u8) -> (r: Result<
    (),
    ErrorCode,
>)
    requires
        old(registry)@.wf(),
    ensures
        final(registry)@.wf(),
        r == (if *signer != old(registry).governance {
            Err(ErrorCode::Unauthorized)
        } else {
            Ok(())
        }),
        r is Ok ==> final(registry)@ == (RegistryView { risk_level, ..old(registry)@ }),
        r is Err ==> final(registry)@ == old(registry)@,
{
    if *signer != registry.governance {
        return Err(ErrorCode::Unauthorized);
    }
    registry.risk_level = risk_level;
    Ok(())
}

} // verus!
