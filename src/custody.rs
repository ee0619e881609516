//! Checks on the custody accounts handed to the custody-transfer service:
//! both sides hold the vault's unit of account, the vault's side belongs to
//! the vault, and both are kept by the token program that performs the move.
use vstd::prelude::*;

use crate::error::ErrorCode;
use crate::pubkey::Pubkey;

verus! {

/// What the ledger reads of a custody (token) account.
#[derive(Clone, Copy, Debug)]
pub struct TokenAccountView {
    /// The unit of account it holds.
    pub mint: Pubkey,
    /// The identity that may spend from it.
    pub owner: Pubkey,
    /// The program that keeps the account.
    pub program_owner: Pubkey,
}

/// Why a user-side and a vault-side custody account do not fit together,
/// checked in this order.
pub open spec fn custody_pair_error(
    mint: Pubkey,
    vault_key: Pubkey,
    user: TokenAccountView,
    custody: TokenAccountView,
    token_program: Pubkey,
) -> Option<ErrorCode> {
    if user.mint != mint || custody.mint != mint || custody.owner != vault_key {
        Some(ErrorCode::Unauthorized)
    } else if user.program_owner != token_program || custody.program_owner != token_program {
        Some(ErrorCode::InvalidTokenProgramOwner)
    } else {
        None
    }
}

/// Checks a user-side account against the vault's custody account, for a
/// deposit, withdrawal or emergency withdrawal of the vault at `vault_key`
/// whose unit of account is `mint`. For a deposit `user_owner` is the
/// depositing authority, for an emergency withdrawal the vault's owner; a
/// withdrawal passes `None`, its recipient being checked by the ledger.
pub fn check_custody_accounts(
    mint: &Pubkey,
    vault_key: &Pubkey,
    user_owner: &Option<Pubkey>,
    user: &TokenAccountView,
    custody: &TokenAccountView,
    token_program: &Pubkey,
) -> (r: Result<(), ErrorCode>)
    ensures
        r == (match *user_owner {
            Some(o) if user.owner != o => Err(ErrorCode::Unauthorized),
            _ => match custody_pair_error(*mint, *vault_key, *user, *custody, *token_program) {
                Some(e) => Err(e),
                None => Ok(()),
            },
        }),
{
    match user_owner {
        Some(o) => {
            if user.owner != *o {
                return Err(ErrorCode::Unauthorized);
            }
        },
        None => {},
    }
    if user.mint != *mint || custody.mint != *mint || custody.owner != *vault_key {
        return Err(ErrorCode::Unauthorized);
    }
    if user.program_owner != *token_program || custody.program_owner != *token_program {
        return Err(ErrorCode::InvalidTokenProgramOwner);
    }
    Ok(())
}

/// Why the two custody accounts of a transfer between vaults do not fit,
/// checked in this order.
pub open spec fn transfer_custody_error(
    from_key: Pubkey,
    from_mint: Pubkey,
    from_custody: TokenAccountView,
    to_key: Pubkey,
    to_mint: Pubkey,
    to_custody: TokenAccountView,
    token_program: Pubkey,
) -> Option<ErrorCode> {
    if from_custody.mint != from_mint || to_custody.mint != to_mint || from_custody.owner
        != from_key || to_custody.owner != to_key {
        Some(ErrorCode::Unauthorized)
    } else if from_custody.program_owner != token_program || to_custody.program_owner
        != token_program {
        Some(ErrorCode::InvalidTokenProgramOwner)
    } else {
        None
    }
}

/// Checks the custody accounts of a transfer from the vault at `from_key` to
/// the vault at `to_key`.
pub fn check_transfer_custody(
    from_key: &Pubkey,
    from_mint: &Pubkey,
    from_custody: &TokenAccountView,
    to_key: &Pubkey,
    to_mint: &Pubkey,
    to_custody: &TokenAccountView,
    token_program: &Pubkey,
) -> (r: Result<(), ErrorCode>)
    ensures
        r == (match transfer_custody_error(
            *from_key,
            *from_mint,
            *from_custody,
            *to_key,
            *to_mint,
            *to_custody,
            *token_program,
        ) {
            Some(e) => Err(e),
            None => Ok(()),
        }),
{
    if from_custody.mint != *from_mint || to_custody.mint != *to_mint || from_custody.owner
        != *from_key || to_custody.owner != *to_key {
        return Err(ErrorCode::Unauthorized);
    }
    if from_custody.program_owner != *token_program || to_custody.program_owner
        != *token_program {
        return Err(ErrorCode::InvalidTokenProgramOwner);
    }
    Ok(())
}

/// An account handed on to an external program call.
#[derive(Clone, Copy, Debug)]
pub struct AccountRef {
    pub key: Pubkey,
    pub is_signer: bool,
    pub is_writable: bool,
}

/// The account list of a call made on the vault's behalf: each account as
/// presented, where `signer_key` (the vault) additionally signs.
pub fn build_metas_from_accounts(accounts: &Vec<AccountRef>, signer_key: &Pubkey) -> (r: Vec<
    AccountRef,
>)
    ensures
        r@.len() == accounts@.len(),
        forall|i: int|
            0 <= i < accounts@.len() ==> {
                let a = #[trigger] accounts@[i];
                &&& r@[i].key == a.key
                &&& r@[i].is_signer == (a.is_signer || a.key == *signer_key)
                &&& r@[i].is_writable == a.is_writable
            },
{
    let mut metas: Vec<AccountRef> = Vec::new();
    let mut i: usize = 0;
    while i < accounts.len()
        invariant
            0 <= i <= accounts@.len(),
            metas@.len() == i,
            forall|j: int|
                0 <= j < i ==> {
                    let a = #[trigger] accounts@[j];
                    &&& metas@[j].key == a.key
                    &&& metas@[j].is_signer == (a.is_signer || a.key == *signer_key)
                    &&& metas@[j].is_writable == a.is_writable
                },
        decreases accounts@.len() - i,
    {
        let a = accounts[i];
        let is_signer = a.is_signer || a.key == *signer_key;
        metas.push(AccountRef { key: a.key, is_signer, is_writable: a.is_writable });
        i += 1;
    }
    metas
}

} // verus!
