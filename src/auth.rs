//! Who may mutate a vault: its owner or a delegate in single-owner mode, a
//! threshold of distinct configured signers in multisig mode, and for lock,
//! unlock and transfer an allowlisted external caller program.
use vstd::prelude::*;

use crate::error::ErrorCode;
use crate::keyset::contains_key;
use crate::pubkey::Pubkey;
use crate::state::{CollateralVault, RegistryView, VaultAuthority, VaultView};

verus! {

/// An account presented with a request, and whether it signed it.
#[derive(Clone, Copy, Debug)]
pub struct SignerAccount {
    pub key: Pubkey,
    pub is_signer: bool,
}

/// Whether `k` approved the request: it is the submitting authority or a
/// presented account that signed.
pub open spec fn presents(authority: Pubkey, cosigners: Seq<SignerAccount>, k: Pubkey) -> bool {
    k == authority || exists|i: int|
        0 <= i < cosigners.len() && #[trigger] cosigners[i].is_signer && cosigners[i].key == k
}

/// How many of `signers` approved the request; for a set of signers without
/// repetition this is the number of distinct approving identities.
pub open spec fn approval_count(
    signers: Seq<Pubkey>,
    authority: Pubkey,
    cosigners: Seq<SignerAccount>,
) -> nat
    decreases signers.len(),
{
    if signers.len() == 0 {
        0
    } else {
        approval_count(signers.drop_last(), authority, cosigners) + if presents(
            authority,
            cosigners,
            signers.last(),
        ) {
            1nat
        } else {
            0nat
        }
    }
}

/// The authorization rule for owner-side vault operations.
pub open spec fn vault_signer_authorized(
    v: VaultView,
    authority: Pubkey,
    cosigners: Seq<SignerAccount>,
) -> bool {
    if v.multisig_threshold == 0 {
        authority == v.owner || v.delegates.contains(authority)
    } else {
        &&& v.multisig_signers.len() > 0
        &&& v.multisig_threshold <= v.multisig_signers.len()
        &&& approval_count(v.multisig_signers, authority, cosigners) >= v.multisig_threshold
    }
}

/// Whether `key` approved the request.
fn is_presented(authority: &Pubkey, cosigners: &Vec<SignerAccount>, key: &Pubkey) -> (r: bool)
    ensures
        r == presents(*authority, cosigners@, *key),
{
    if *key == *authority {
        return true;
    }
    let mut i: usize = 0;
    while i < cosigners.len()
        invariant
            0 <= i <= cosigners@.len(),
            *key != *authority,
            forall|j: int|
                0 <= j < i ==> !(#[trigger] cosigners@[j].is_signer && cosigners@[j].key == *key),
        decreases cosigners@.len() - i,
    {
        if cosigners[i].is_signer && cosigners[i].key == *key {
            return true;
        }
        i += 1;
    }
    false
}

/// Counts the configured signers that approved the request.
pub fn count_approvals(
    signers: &Vec<Pubkey>,
    authority: &Pubkey,
    cosigners: &Vec<SignerAccount>,
) -> (r: usize)
    ensures
        r == approval_count(signers@, *authority, cosigners@),
{
    let mut approved: usize = 0;
    let mut i: usize = 0;
    while i < signers.len()
        invariant
            0 <= i <= signers@.len(),
            approved <= i,
            approved == approval_count(signers@.take(i as int), *authority, cosigners@),
        decreases signers@.len() - i,
    {
        proof {
            assert(signers@.take(i + 1).drop_last() =~= signers@.take(i as int));
        }
        if is_presented(authority, cosigners, &signers[i]) {
            approved += 1;
        }
        i += 1;
    }
    proof {
        assert(signers@.take(i as int) =~= signers@);
    }
    approved
}

/// Checks the request against the vault's single-owner or multisig configuration.
pub fn authorize_vault_signer(
    vault: &CollateralVault,
    authority: &Pubkey,
    cosigners: &Vec<SignerAccount>,
) -> (r: Result<(), ErrorCode>)
    ensures
        r == (if vault_signer_authorized(vault@, *authority, cosigners@) {
            Ok(())
        } else {
            Err(ErrorCode::Unauthorized)
        }),
{
    let threshold = vault.multisig_threshold;
    if threshold == 0 {
        if *authority == vault.owner || contains_key(&vault.delegates, authority) {
            Ok(())
        } else {
            Err(ErrorCode::Unauthorized)
        }
    } else {
        if vault.multisig_signers.len() == 0 || threshold as usize > vault.multisig_signers.len() {
            return Err(ErrorCode::Unauthorized);
        }
        let approved = count_approvals(&vault.multisig_signers, authority, cosigners);
        if approved >= threshold as usize {
            Ok(())
        } else {
            Err(ErrorCode::Unauthorized)
        }
    }
}

/// Why an external caller may not lock, unlock or transfer, if it may not:
/// there is no attested immediate caller, or it is not allowlisted, or origin
/// enforcement is on and the declared caller is not the attested one.
pub open spec fn external_caller_error(
    reg: RegistryView,
    declared: Pubkey,
    actual: Option<Pubkey>,
) -> Option<ErrorCode> {
    match actual {
        None => Some(ErrorCode::UnauthorizedProgram),
        Some(a) => if !reg.authorized_programs.contains(a) {
            Some(ErrorCode::UnauthorizedProgram)
        } else if reg.cpi_enforced && declared != a {
            Some(ErrorCode::UnauthorizedProgram)
        } else {
            None
        },
    }
}

/// Checks an external caller: `declared` is the identity the request names,
/// `actual` the immediate invoker as the host attests it.
pub fn authorize_external_caller(
    registry: &VaultAuthority,
    declared: &Pubkey,
    actual: &Option<Pubkey>,
) -> (r: Result<(), ErrorCode>)
    ensures
        r == (match external_caller_error(registry@, *declared, *actual) {
            Some(e) => Err(e),
            None => Ok(()),
        }),
{
    match actual {
        None => Err(ErrorCode::UnauthorizedProgram),
        Some(a) => {
            if !contains_key(&registry.authorized_programs, a) {
                Err(ErrorCode::UnauthorizedProgram)
            } else if registry.cpi_enforced && *declared != *a {
                Err(ErrorCode::UnauthorizedProgram)
            } else {
                Ok(())
            }
        },
    }
}

} // verus!
