//! Withdrawal policies: the minimum-delay request queue, the rolling
//! rate-limit window and the recipient whitelist, with their owner-signed
//! configuration operations.
use vstd::prelude::*;

use crate::constants::{MAX_PENDING_WITHDRAWALS, MAX_WITHDRAW_WHITELIST};
use crate::error::ErrorCode;
use crate::keyset::{insert_key, remove_key, swap_removed};
use crate::pubkey::Pubkey;
use crate::state::{CollateralVault, PendingWithdrawalEntry, VaultView};

verus! {

/// Sum of the queued requests executable at `now`.
pub open spec fn matured_pending_total(s: Seq<PendingWithdrawalEntry>, now: i64) -> int
    decreases s.len(),
{
    if s.len() == 0 {
        0
    } else {
        matured_pending_total(s.drop_last(), now) + if s.last().executable_at <= now {
            s.last().amount as int
        } else {
            0
        }
    }
}

/// The queue after `to_consume` is taken first-in first-out from the entries
/// executable at `now`; a partly consumed entry keeps its remainder, entries
/// not yet executable are untouched.
pub open spec fn consume_pending(
    s: Seq<PendingWithdrawalEntry>,
    now: i64,
    to_consume: int,
) -> Seq<PendingWithdrawalEntry>
    decreases s.len(),
{
    if s.len() == 0 {
        seq![]
    } else {
        let e = s[0];
        if to_consume == 0 || e.executable_at > now {
            seq![e] + consume_pending(s.drop_first(), now, to_consume)
        } else if e.amount <= to_consume {
            consume_pending(s.drop_first(), now, to_consume - e.amount)
        } else {
            seq![PendingWithdrawalEntry { amount: (e.amount - to_consume) as u64, ..e }]
                + consume_pending(s.drop_first(), now, 0)
        }
    }
}

pub proof fn lemma_consume_shrinks(s: Seq<PendingWithdrawalEntry>, now: i64, to_consume: int)
    ensures
        consume_pending(s, now, to_consume).len() <= s.len(),
    decreases s.len(),
{
    if s.len() > 0 {
        lemma_consume_shrinks(s.drop_first(), now, to_consume);
        lemma_consume_shrinks(s.drop_first(), now, 0);
        let e = s[0];
        if e.executable_at <= now && to_consume != 0 && e.amount <= to_consume {
            lemma_consume_shrinks(s.drop_first(), now, to_consume - e.amount);
        }
    }
}

proof fn lemma_pending_prefix(s: Seq<PendingWithdrawalEntry>, i: int, now: i64)
    requires
        0 <= i <= s.len(),
    ensures
        0 <= matured_pending_total(s.take(i), now) <= matured_pending_total(s, now),
    decreases s.len(),
{
    if i == s.len() {
        assert(s.take(i) =~= s);
        lemma_pending_nonneg(s, now);
    } else {
        assert(s.take(i) =~= s.drop_last().take(i));
        lemma_pending_prefix(s.drop_last(), i, now);
    }
}

proof fn lemma_pending_nonneg(s: Seq<PendingWithdrawalEntry>, now: i64)
    ensures
        0 <= matured_pending_total(s, now),
    decreases s.len(),
{
    if s.len() > 0 {
        lemma_pending_nonneg(s.drop_last(), now);
    }
}

/// Sum of the queued requests executable at `now`; `None` when it does not
/// fit in a `u64`.
pub fn matured_pending(pending: &Vec<PendingWithdrawalEntry>, now: i64) -> (r: Option<u64>)
    ensures
        r == (if matured_pending_total(pending@, now) <= u64::MAX {
            Some(matured_pending_total(pending@, now) as u64)
        } else {
            None::<u64>
        }),
        0 <= matured_pending_total(pending@, now),
{
    proof {
        lemma_pending_nonneg(pending@, now);
    }
    let ghost s = pending@;
    let mut total: u64 = 0;
    let mut i: usize = 0;
    while i < pending.len()
        invariant
            s == pending@,
            0 <= i <= s.len(),
            total == matured_pending_total(s.take(i as int), now),
        decreases s.len() - i,
    {
        let e = pending[i];
        proof {
            assert(s.take(i + 1).drop_last() =~= s.take(i as int));
            assert(s.take(i + 1).last() == e);
            lemma_pending_prefix(s, i + 1, now);
        }
        if e.executable_at <= now {
            match total.checked_add(e.amount) {
                Some(t) => total = t,
                None => return None,
            }
        }
        i += 1;
    }
    proof {
        assert(s.take(i as int) =~= s);
    }
    Some(total)
}

/// Consumes `amount` from the requests executable at `now`, oldest first.
pub fn consume_matured(pending: &Vec<PendingWithdrawalEntry>, now: i64, amount: u64) -> (r: Vec<
    PendingWithdrawalEntry,
>)
    ensures
        r@ == consume_pending(pending@, now, amount as int),
{
    let ghost s = pending@;
    let mut remaining: Vec<PendingWithdrawalEntry> = Vec::new();
    let mut to_consume = amount;
    let mut i: usize = 0;
    proof {
        assert(s.subrange(0, s.len() as int) =~= s);
        assert(remaining@ + consume_pending(s, now, amount as int) =~= consume_pending(
            s,
            now,
            amount as int,
        ));
    }
    while i < pending.len()
        invariant
            s == pending@,
            0 <= i <= s.len(),
            consume_pending(s, now, amount as int) == remaining@ + consume_pending(
                s.subrange(i as int, s.len() as int),
                now,
                to_consume as int,
            ),
        decreases s.len() - i,
    {
        let e = pending[i];
        let ghost t = s.subrange(i as int, s.len() as int);
        let ghost before = remaining@;
        proof {
            assert(t[0] == e);
            assert(t.drop_first() =~= s.subrange(i + 1, s.len() as int));
        }
        if to_consume == 0 || e.executable_at > now {
            remaining.push(e);
            proof {
                assert(before + (seq![e] + consume_pending(t.drop_first(), now, to_consume as int))
                    =~= remaining@ + consume_pending(t.drop_first(), now, to_consume as int));
            }
        } else if e.amount <= to_consume {
            to_consume = to_consume - e.amount;
        } else {
            let part = PendingWithdrawalEntry { amount: e.amount - to_consume, ..e };
            remaining.push(part);
            proof {
                assert(before + (seq![part] + consume_pending(t.drop_first(), now, 0))
                    =~= remaining@ + consume_pending(t.drop_first(), now, 0));
            }
            to_consume = 0;
        }
        i += 1;
    }
    proof {
        assert(s.subrange(i as int, s.len() as int) =~= Seq::<PendingWithdrawalEntry>::empty());
        assert(remaining@ + seq![] =~= remaining@);
    }
    remaining
}

/// Rate limiting is on when both the window and the per-window maximum are set.
pub open spec fn rate_limited(v: VaultView) -> bool {
    v.rate_window_seconds > 0 && v.rate_limit_amount > 0
}

/// A withdrawal at `now` starts a new window: none was started yet, or the
/// current one has run out.
pub open spec fn window_resets(v: VaultView, now: i64) -> bool {
    v.last_withdrawal_window_start == 0 || now >= v.last_withdrawal_window_start
        + v.rate_window_seconds
}

/// What was already withdrawn in the window that a withdrawal at `now` falls in.
pub open spec fn used_in_window(v: VaultView, now: i64) -> int {
    if window_resets(v, now) {
        0
    } else {
        v.withdrawn_in_window as int
    }
}

/// Why `request_withdraw` refuses, checked in this order.
pub open spec fn request_withdraw_error(v: VaultView, signer: Pubkey, amount: u64, now: i64) -> Option<
    ErrorCode,
> {
    if signer != v.owner {
        Some(ErrorCode::Unauthorized)
    } else if amount == 0 {
        Some(ErrorCode::InvalidAmount)
    } else if v.min_withdraw_delay_seconds <= 0 {
        Some(ErrorCode::Unauthorized)
    } else if now + v.min_withdraw_delay_seconds > i64::MAX {
        Some(ErrorCode::Overflow)
    } else if v.pending_withdrawals.len() >= MAX_PENDING_WITHDRAWALS {
        Some(ErrorCode::Overflow)
    } else {
        None
    }
}

/// The vault after a request for `amount` is queued at `now`.
pub open spec fn withdraw_requested(v: VaultView, amount: u64, now: i64) -> VaultView {
    VaultView {
        pending_withdrawals: v.pending_withdrawals.push(
            PendingWithdrawalEntry {
                amount,
                requested_at: now,
                executable_at: (now + v.min_withdraw_delay_seconds) as i64,
            },
        ),
        ..v
    }
}

/// Queues a withdrawal request that becomes executable after the vault's
/// minimum delay; only valid while a minimum delay is configured.
pub fn request_withdraw(vault: &mut CollateralVault, signer: &Pubkey, amount: u64, now: i64) -> (r:
    Result<(), ErrorCode>)
    requires
        old(vault)@.wf(),
    ensures
        final(vault)@.wf(),
        match r {
            Ok(()) => request_withdraw_error(old(vault)@, *signer, amount, now) is None
                && final(vault)@ == withdraw_requested(old(vault)@, amount, now),
            Err(e) => request_withdraw_error(old(vault)@, *signer, amount, now) == Some(e)
                && final(vault)@ == old(vault)@,
        },
{
    if *signer != vault.owner {
        return Err(ErrorCode::Unauthorized);
    }
    if amount == 0 {
        return Err(ErrorCode::InvalidAmount);
    }
    let delay = vault.min_withdraw_delay_seconds;
    if delay <= 0 {
        return Err(ErrorCode::Unauthorized);
    }
    let executable_at = match now.checked_add(delay) {
        Some(t) => t,
        None => return Err(ErrorCode::Overflow),
    };
    if vault.pending_withdrawals.len() >= MAX_PENDING_WITHDRAWALS {
        return Err(ErrorCode::Overflow);
    }
    vault.pending_withdrawals.push(PendingWithdrawalEntry { amount, requested_at: now, executable_at });
    Ok(())
}

/// Sets the minimum delay between a withdrawal request and its execution;
/// zero turns the queue off.
pub fn set_withdraw_min_delay(vault: &mut CollateralVault, signer: &Pubkey, seconds: i64) -> (r:
    Result<(), ErrorCode>)
    requires
        old(vault)@.wf(),
    ensures
        final(vault)@.wf(),
        r == (if *signer != old(vault).owner {
            Err(ErrorCode::Unauthorized)
        } else if seconds < 0 {
            Err(ErrorCode::InvalidAmount)
        } else {
            Ok(())
        }),
        r is Ok ==> final(vault)@ == (VaultView { min_withdraw_delay_seconds: seconds, ..old(vault)@ }),
        r is Err ==> final(vault)@ == old(vault)@,
{
    if *signer != vault.owner {
        return Err(ErrorCode::Unauthorized);
    }
    if seconds < 0 {
        return Err(ErrorCode::InvalidAmount);
    }
    vault.min_withdraw_delay_seconds = seconds;
    Ok(())
}

/// Sets the rate-limit window and per-window maximum and restarts the window.
pub fn set_withdraw_rate_limit(
    vault: &mut CollateralVault,
    signer: &Pubkey,
    window_seconds: u32,
    max_amount: u64,
) -> (r: Result<(), ErrorCode>)
    requires
        old(vault)@.wf(),
    ensures
        final(vault)@.wf(),
        r == (if *signer != old(vault).owner {
            Err(ErrorCode::Unauthorized)
        } else {
            Ok(())
        }),
        r is Ok ==> final(vault)@ == (VaultView {
            rate_window_seconds: window_seconds,
            rate_limit_amount: max_amount,
            last_withdrawal_window_start: 0,
            withdrawn_in_window: 0,
            ..old(vault)@
        }),
        r is Err ==> final(vault)@ == old(vault)@,
{
    if *signer != vault.owner {
        return Err(ErrorCode::Unauthorized);
    }
    vault.rate_window_seconds = window_seconds;
    vault.rate_limit_amount = max_amount;
    vault.last_withdrawal_window_start = 0;
    vault.withdrawn_in_window = 0;
    Ok(())
}

/// Adds a recipient to the whitelist.
pub fn add_withdraw_whitelist(vault: &mut CollateralVault, signer: &Pubkey, address: Pubkey) -> (r:
    Result<(), ErrorCode>)
    requires
        old(vault)@.wf(),
    ensures
        final(vault)@.wf(),
        r == (if *signer != old(vault).owner {
            Err(ErrorCode::Unauthorized)
        } else if old(vault)@.withdraw_whitelist.contains(address) {
            Err(ErrorCode::AlreadyExists)
        } else if old(vault)@.withdraw_whitelist.len() >= MAX_WITHDRAW_WHITELIST {
            Err(ErrorCode::Overflow)
        } else {
            Ok(())
        }),
        r is Ok ==> final(vault)@ == (VaultView {
            withdraw_whitelist: old(vault)@.withdraw_whitelist.push(address),
            ..old(vault)@
        }),
        r is Err ==> final(vault)@ == old(vault)@,
{
    if *signer != vault.owner {
        return Err(ErrorCode::Unauthorized);
    }
    insert_key(&mut vault.withdraw_whitelist, address, MAX_WITHDRAW_WHITELIST)
}

/// Removes a recipient from the whitelist; `NotFound` when it is not there.
pub fn remove_withdraw_whitelist(vault: &mut CollateralVault, signer: &Pubkey, address: &Pubkey) -> (r:
    Result<(), ErrorCode>)
    requires
        old(vault)@.wf(),
    ensures
        final(vault)@.wf(),
        r == (if *signer != old(vault).owner {
            Err(ErrorCode::Unauthorized)
        } else if !old(vault)@.withdraw_whitelist.contains(*address) {
            Err(ErrorCode::NotFound)
        } else {
            Ok(())
        }),
        r is Ok ==> final(vault)@ == (VaultView {
            withdraw_whitelist: swap_removed(old(vault)@.withdraw_whitelist, *address),
            ..old(vault)@
        }),
        r is Err ==> final(vault)@ == old(vault)@,
{
    if *signer != vault.owner {
        return Err(ErrorCode::Unauthorized);
    }
    remove_key(&mut vault.withdraw_whitelist, address)
}

} // verus!
