//! The bookkeeping of a position manager: per vault, how many positions are
//! open against it and how much collateral they hold locked. It is the state
//! behind the position summaries that withdrawals check.
use vstd::prelude::*;

use crate::error::ErrorCode;
use crate::pubkey::Pubkey;

verus! {

/// A position manager's record for one vault.
#[derive(Clone, Copy, Debug)]
pub struct PositionSummaryAccount {
    pub vault: Pubkey,
    pub owner: Pubkey,
    pub open_positions: u64,
    pub locked_amount: u64,
    pub last_updated_slot: u64,
}

/// A record with no open positions for the vault at `vault_key` of `owner`.
pub fn init_position_summary(vault_key: Pubkey, owner: Pubkey, slot: u64) -> (r:
    PositionSummaryAccount)
    ensures
        r == (PositionSummaryAccount {
            vault: vault_key,
            owner,
            open_positions: 0,
            locked_amount: 0,
            last_updated_slot: slot,
        }),
{
    PositionSummaryAccount {
        vault: vault_key,
        owner,
        open_positions: 0,
        locked_amount: 0,
        last_updated_slot: slot,
    }
}

impl PositionSummaryAccount {
    /// The record belongs to the vault at `vault_key` of `owner`.
    pub fn ensure_matches(&self, vault_key: &Pubkey, owner: &Pubkey) -> (r: Result<(), ErrorCode>)
        ensures
            r == (if self.vault == *vault_key && self.owner == *owner {
                Ok(())
            } else {
                Err(ErrorCode::Unauthorized)
            }),
    {
        if self.vault != *vault_key || self.owner != *owner {
            return Err(ErrorCode::Unauthorized);
        }
        Ok(())
    }
}

/// Records a new position holding `amount` locked, at `slot`.
pub fn open_position(
    summary: &mut PositionSummaryAccount,
    vault_key: &Pubkey,
    owner: &Pubkey,
    amount: u64,
    slot: u64,
) -> (r: Result<(), ErrorCode>)
    ensures
        r == (if amount == 0 {
            Err(ErrorCode::InvalidAmount)
        } else if old(summary).vault != *vault_key || old(summary).owner != *owner {
            Err(ErrorCode::Unauthorized)
        } else if old(summary).open_positions + 1 > u64::MAX || old(summary).locked_amount + amount
            > u64::MAX {
            Err(ErrorCode::Overflow)
        } else {
            Ok(())
        }),
        r is Ok ==> *final(summary) == (PositionSummaryAccount {
            open_positions: (old(summary).open_positions + 1) as u64,
            locked_amount: (old(summary).locked_amount + amount) as u64,
            last_updated_slot: slot,
            ..*old(summary)
        }),
        r is Err ==> *final(summary) == *old(summary),
{
    if amount == 0 {
        return Err(ErrorCode::InvalidAmount);
    }
    summary.ensure_matches(vault_key, owner)?;
    let open = match summary.open_positions.checked_add(1) {
        Some(n) => n,
        None => return Err(ErrorCode::Overflow),
    };
    let locked = match summary.locked_amount.checked_add(amount) {
        Some(n) => n,
        None => return Err(ErrorCode::Overflow),
    };
    summary.open_positions = open;
    summary.locked_amount = locked;
    summary.last_updated_slot = slot;
    Ok(())
}

/// Records that a position holding `amount` was closed, at `slot`.
pub fn close_position(
    summary: &mut PositionSummaryAccount,
    vault_key: &Pubkey,
    owner: &Pubkey,
    amount: u64,
    slot: u64,
) -> (r: Result<(), ErrorCode>)
    ensures
        r == (if amount == 0 {
            Err(ErrorCode::InvalidAmount)
        } else if old(summary).vault != *vault_key || old(summary).owner != *owner {
            Err(ErrorCode::Unauthorized)
        } else if old(summary).open_positions == 0 {
            Err(ErrorCode::Unauthorized)
        } else if old(summary).locked_amount < amount {
            Err(ErrorCode::Overflow)
        } else {
            Ok(())
        }),
        r is Ok ==> *final(summary) == (PositionSummaryAccount {
            open_positions: (old(summary).open_positions - 1) as u64,
            locked_amount: (old(summary).locked_amount - amount) as u64,
            last_updated_slot: slot,
            ..*old(summary)
        }),
        r is Err ==> *final(summary) == *old(summary),
{
    if amount == 0 {
        return Err(ErrorCode::InvalidAmount);
    }
    summary.ensure_matches(vault_key, owner)?;
    if summary.open_positions == 0 {
        return Err(ErrorCode::Unauthorized);
    }
    if summary.locked_amount < amount {
        return Err(ErrorCode::Overflow);
    }
    summary.open_positions = summary.open_positions - 1;
    summary.locked_amount = summary.locked_amount - amount;
    summary.last_updated_slot = slot;
    Ok(())
}

} // verus!
