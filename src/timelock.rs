//! Timelocks: funds moved out of the available balance until an unlock time,
//! and returned to it by a release scan once that time has come.
use vstd::prelude::*;

use crate::auth::{authorize_vault_signer, vault_signer_authorized, SignerAccount};
use crate::constants::MAX_TIMELOCKS;
use crate::error::ErrorCode;
use crate::pubkey::Pubkey;
use crate::state::{CollateralVault, TimelockEntry, VaultView};

verus! {

/// Sum of the entries whose unlock time has come at `now`.
pub open spec fn matured_total(s: Seq<TimelockEntry>, now: i64) -> int
    decreases s.len(),
{
    if s.len() == 0 {
        0
    } else {
        matured_total(s.drop_last(), now) + if s.last().unlock_time <= now {
            s.last().amount as int
        } else {
            0
        }
    }
}

/// The entries not yet mature at `now`, in their order.
pub open spec fn still_locked(s: Seq<TimelockEntry>, now: i64) -> Seq<TimelockEntry>
    decreases s.len(),
{
    if s.len() == 0 {
        seq![]
    } else if s.last().unlock_time > now {
        still_locked(s.drop_last(), now).push(s.last())
    } else {
        still_locked(s.drop_last(), now)
    }
}

/// Why a release scan at `now` cannot return the matured funds: their sum,
/// or the total with them, does not fit in a `u64`.
pub open spec fn release_overflows(v: VaultView, now: i64) -> bool {
    v.total_balance + matured_total(v.timelocks, now) > u64::MAX
}

/// The vault after a release scan at `now`: the matured funds are back in the
/// total and the available balance.
pub open spec fn released(v: VaultView, now: i64) -> VaultView {
    VaultView {
        total_balance: (v.total_balance + matured_total(v.timelocks, now)) as u64,
        available_balance: (v.available_balance + matured_total(v.timelocks, now)) as u64,
        timelocks: still_locked(v.timelocks, now),
        ..v
    }
}

pub proof fn lemma_matured_nonneg(s: Seq<TimelockEntry>, now: i64)
    ensures
        matured_total(s, now) >= 0,
        still_locked(s, now).len() <= s.len(),
    decreases s.len(),
{
    if s.len() > 0 {
        lemma_matured_nonneg(s.drop_last(), now);
    }
}

proof fn lemma_matured_prefix(s: Seq<TimelockEntry>, i: int, now: i64)
    requires
        0 <= i <= s.len(),
    ensures
        0 <= matured_total(s.take(i), now) <= matured_total(s, now),
    decreases s.len(),
{
    if i == s.len() {
        assert(s.take(i) =~= s);
        lemma_matured_nonneg(s, now);
    } else {
        assert(s.take(i) =~= s.drop_last().take(i));
        lemma_matured_prefix(s.drop_last(), i, now);
        lemma_matured_nonneg(s.drop_last(), now);
    }
}

/// Sums and removes the entries mature at `now`; returns the sum and the
/// rest, or `None` when the sum does not fit in a `u64`.
pub fn release_matured(timelocks: &Vec<TimelockEntry>, now: i64) -> (r: Option<(u64, Vec<TimelockEntry>)>)
    ensures
        r is None <==> matured_total(timelocks@, now) > u64::MAX,
        r matches Some(p) ==> p.0 == matured_total(timelocks@, now) && p.1@ == still_locked(
            timelocks@,
            now,
        ),
{
    let ghost s = timelocks@;
    let mut released_total: u64 = 0;
    let mut remaining: Vec<TimelockEntry> = Vec::new();
    let mut i: usize = 0;
    while i < timelocks.len()
        invariant
            s == timelocks@,
            0 <= i <= s.len(),
            released_total == matured_total(s.take(i as int), now),
            remaining@ == still_locked(s.take(i as int), now),
        decreases s.len() - i,
    {
        let e = timelocks[i];
        proof {
            assert(s.take(i + 1).drop_last() =~= s.take(i as int));
            assert(s.take(i + 1).last() == e);
            lemma_matured_prefix(s, i + 1, now);
        }
        if e.unlock_time <= now {
            match released_total.checked_add(e.amount) {
                Some(t) => released_total = t,
                None => return None,
            }
        } else {
            remaining.push(e);
        }
        i += 1;
    }
    proof {
        assert(s.take(i as int) =~= s);
    }
    Some((released_total, remaining))
}

/// Why `schedule_timelock` refuses, checked in this order.
pub open spec fn schedule_timelock_error(
    v: VaultView,
    authority: Pubkey,
    cosigners: Seq<SignerAccount>,
    amount: u64,
    duration_seconds: i64,
    now: i64,
) -> Option<ErrorCode> {
    if amount == 0 || duration_seconds < 0 {
        Some(ErrorCode::InvalidAmount)
    } else if !vault_signer_authorized(v, authority, cosigners) {
        Some(ErrorCode::Unauthorized)
    } else if v.available_balance < amount {
        Some(ErrorCode::InsufficientFunds)
    } else if now + duration_seconds > i64::MAX {
        Some(ErrorCode::Overflow)
    } else if v.timelocks.len() >= MAX_TIMELOCKS {
        Some(ErrorCode::Overflow)
    } else {
        None
    }
}

/// The vault after `amount` is reserved until `now + duration_seconds`.
pub open spec fn timelock_scheduled(
    v: VaultView,
    amount: u64,
    duration_seconds: i64,
    now: i64,
) -> VaultView {
    VaultView {
        total_balance: (v.total_balance - amount) as u64,
        available_balance: (v.available_balance - amount) as u64,
        timelocks: v.timelocks.push(
            TimelockEntry { amount, unlock_time: (now + duration_seconds) as i64 },
        ),
        ..v
    }
}

/// Moves `amount` out of the available balance (and with it out of the
/// total) into a new timelock entry that unlocks at `now + duration_seconds`.
pub fn schedule_timelock(
    vault: &mut CollateralVault,
    authority: &Pubkey,
    cosigners: &Vec<SignerAccount>,
    amount: u64,
    duration_seconds: i64,
    now: i64,
) -> (r: Result<(), ErrorCode>)
    requires
        old(vault)@.wf(),
    ensures
        final(vault)@.wf(),
        match r {
            Ok(()) => schedule_timelock_error(
                old(vault)@,
                *authority,
                cosigners@,
                amount,
                duration_seconds,
                now,
            ) is None && final(vault)@ == timelock_scheduled(
                old(vault)@,
                amount,
                duration_seconds,
                now,
            ),
            Err(e) => schedule_timelock_error(
                old(vault)@,
                *authority,
                cosigners@,
                amount,
                duration_seconds,
                now,
            ) == Some(e) && final(vault)@ == old(vault)@,
        },
{
    if amount == 0 || duration_seconds < 0 {
        return Err(ErrorCode::InvalidAmount);
    }
    authorize_vault_signer(vault, authority, cosigners)?;
    if vault.available_balance < amount {
        return Err(ErrorCode::InsufficientFunds);
    }
    let unlock_time = match now.checked_add(duration_seconds) {
        Some(t) => t,
        None => return Err(ErrorCode::Overflow),
    };
    if vault.timelocks.len() >= MAX_TIMELOCKS {
        return Err(ErrorCode::Overflow);
    }
    vault.total_balance = vault.total_balance - amount;
    vault.available_balance = vault.available_balance - amount;
    vault.timelocks.push(TimelockEntry { amount, unlock_time });
    Ok(())
}

/// Why `release_timelocks` refuses, checked in this order.
pub open spec fn release_timelocks_error(
    v: VaultView,
    authority: Pubkey,
    cosigners: Seq<SignerAccount>,
    now: i64,
) -> Option<ErrorCode> {
    if !vault_signer_authorized(v, authority, cosigners) {
        Some(ErrorCode::Unauthorized)
    } else if release_overflows(v, now) {
        Some(ErrorCode::Overflow)
    } else {
        None
    }
}

/// Returns every timelock mature at `now` to the total and the available
/// balance and keeps the others unchanged; the result is the amount released.
pub fn release_timelocks(
    vault: &mut CollateralVault,
    authority: &Pubkey,
    cosigners: &Vec<SignerAccount>,
    now: i64,
) -> (r: Result<u64, ErrorCode>)
    requires
        old(vault)@.wf(),
    ensures
        final(vault)@.wf(),
        match r {
            Ok(n) => release_timelocks_error(old(vault)@, *authority, cosigners@, now) is None
                && n == matured_total(old(vault)@.timelocks, now) && final(vault)@ == released(
                old(vault)@,
                now,
            ),
            Err(e) => release_timelocks_error(old(vault)@, *authority, cosigners@, now) == Some(e)
                && final(vault)@ == old(vault)@,
        },
{
    authorize_vault_signer(vault, authority, cosigners)?;
    proof {
        lemma_matured_nonneg(vault.timelocks@, now);
    }
    let (released_total, remaining) = match release_matured(&vault.timelocks, now) {
        Some(p) => p,
        None => return Err(ErrorCode::Overflow),
    };
    let total = match vault.total_balance.checked_add(released_total) {
        Some(t) => t,
        None => return Err(ErrorCode::Overflow),
    };
    vault.total_balance = total;
    vault.available_balance = vault.available_balance + released_total;
    vault.timelocks = remaining;
    Ok(released_total)
}

} // verus!
