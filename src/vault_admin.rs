//! Owner-signed configuration of a vault's delegates and multisig signers.
use vstd::prelude::*;

use crate::constants::{MAX_DELEGATES, MAX_MULTISIG_SIGNERS};
use crate::error::ErrorCode;
use crate::keyset::{all_distinct, insert_key, remove_key, swap_removed};
use crate::pubkey::Pubkey;
use crate::state::{CollateralVault, VaultView};

verus! {

/// Adds a delegate; the owner itself and a present delegate are refused with
/// `AlreadyExists`, a full set with `Overflow`.
pub fn add_delegate(vault: &mut CollateralVault, signer: &Pubkey, delegate: Pubkey) -> (r: Result<
    (),
    ErrorCode,
>)
    requires
        old(vault)@.wf(),
    ensures
        final(vault)@.wf(),
        r == (if *signer != old(vault).owner {
            Err(ErrorCode::Unauthorized)
        } else if delegate == old(vault).owner || old(vault)@.delegates.contains(delegate) {
            Err(ErrorCode::AlreadyExists)
        } else if old(vault)@.delegates.len() >= MAX_DELEGATES {
            Err(ErrorCode::Overflow)
        } else {
            Ok(())
        }),
        r is Ok ==> final(vault)@ == (VaultView {
            delegates: old(vault)@.delegates.push(delegate),
            ..old(vault)@
        }),
        r is Err ==> final(vault)@ == old(vault)@,
{
    if *signer != vault.owner {
        return Err(ErrorCode::Unauthorized);
    }
    if delegate == vault.owner {
        return Err(ErrorCode::AlreadyExists);
    }
    let r = insert_key(&mut vault.delegates, delegate, MAX_DELEGATES);
    proof {
        if r is Ok {
            assert(vault.delegates@.contains(vault.owner) ==> old(vault)@.delegates.contains(
                vault.owner,
            )) by {
                if vault.delegates@.contains(vault.owner) {
                    let i = choose|i: int|
                        0 <= i < vault.delegates@.len() && vault.delegates@[i] == vault.owner;
                    assert(i < old(vault)@.delegates.len());
                    assert(old(vault)@.delegates[i] == vault.owner);
                }
            }
        }
    }
    r
}

/// Removes a delegate; `NotFound` when it is not one.
pub fn remove_delegate(vault: &mut CollateralVault, signer: &Pubkey, delegate: &Pubkey) -> (r:
    Result<(), ErrorCode>)
    requires
        old(vault)@.wf(),
    ensures
        final(vault)@.wf(),
        r == (if *signer != old(vault).owner {
            Err(ErrorCode::Unauthorized)
        } else if !old(vault)@.delegates.contains(*delegate) {
            Err(ErrorCode::NotFound)
        } else {
            Ok(())
        }),
        r is Ok ==> final(vault)@ == (VaultView {
            delegates: swap_removed(old(vault)@.delegates, *delegate),
            ..old(vault)@
        }),
        r is Err ==> final(vault)@ == old(vault)@,
{
    if *signer != vault.owner {
        return Err(ErrorCode::Unauthorized);
    }
    remove_key(&mut vault.delegates, delegate)
}

/// Why `set_vault_multisig` refuses: a threshold above the number of
/// signers, too many signers, or a signer named twice (`InvalidAmount`).
pub open spec fn multisig_config_error(
    v: VaultView,
    signer: Pubkey,
    signers: Seq<Pubkey>,
    threshold: u8,
) -> Option<ErrorCode> {
    if signer != v.owner {
        Some(ErrorCode::Unauthorized)
    } else if threshold > signers.len() || signers.len() > MAX_MULTISIG_SIGNERS
        || !signers.no_duplicates() {
        Some(ErrorCode::InvalidAmount)
    } else {
        None
    }
}

/// Replaces the multisig configuration; a zero threshold keeps multisig off.
pub fn set_vault_multisig(
    vault: &mut CollateralVault,
    signer: &Pubkey,
    signers: Vec<Pubkey>,
    threshold: u8,
) -> (r: Result<(), ErrorCode>)
    requires
        old(vault)@.wf(),
    ensures
        final(vault)@.wf(),
        r == (match multisig_config_error(old(vault)@, *signer, signers@, threshold) {
            Some(e) => Err(e),
            None => Ok(()),
        }),
        r is Ok ==> final(vault)@ == (VaultView {
            multisig_threshold: threshold,
            multisig_signers: signers@,
            ..old(vault)@
        }),
        r is Err ==> final(vault)@ == old(vault)@,
{
    if *signer != vault.owner {
        return Err(ErrorCode::Unauthorized);
    }
    if threshold as usize > signers.len() || signers.len() > MAX_MULTISIG_SIGNERS || !all_distinct(
        &signers,
    ) {
        return Err(ErrorCode::InvalidAmount);
    }
    vault.multisig_threshold = threshold;
    vault.multisig_signers = signers;
    Ok(())
}

/// Turns multisig off and forgets the signers.
pub fn disable_vault_multisig(vault: &mut CollateralVault, signer: &Pubkey) -> (r: Result<
    (),
    ErrorCode,
>)
    requires
        old(vault)@.wf(),
    ensures
        final(vault)@.wf(),
        r == (if *signer != old(vault).owner {
            Err(ErrorCode::Unauthorized)
        } else {
            Ok(())
        }),
        r is Ok ==> final(vault)@ == (VaultView {
            multisig_threshold: 0,
            multisig_signers: seq![],
            ..old(vault)@
        }),
        r is Err ==> final(vault)@ == old(vault)@,
{
    if *signer != vault.owner {
        return Err(ErrorCode::Unauthorized);
    }
    vault.multisig_threshold = 0;
    vault.multisig_signers.clear();
    proof {
        assert(vault.multisig_signers@ =~= Seq::<Pubkey>::empty());
    }
    Ok(())
}

} // verus!
