//! Position summaries: attestations by allowlisted external programs that a
//! vault has no open exposure with them. A summary account holds an 8-byte
//! header, then the vault and owner identities (32 bytes each) and three
//! little-endian `u64` values: open positions, locked amount, last update slot.
use vstd::prelude::*;

use vstd::bytes::{spec_u64_from_le_bytes, u64_from_le_bytes};
use vstd::slice::slice_subrange;

use crate::error::ErrorCode;
use crate::keyset::contains_key;
use crate::pubkey::Pubkey;

verus! {

/// Length of a summary account's data: header and encoded summary.
pub const POSITION_SUMMARY_ACCOUNT_LEN: usize = 96;

/// What an external program attests about one vault.
#[derive(Clone, Copy, Debug)]
pub struct PositionSummary {
    pub vault: Pubkey,
    pub owner: Pubkey,
    pub open_positions: u64,
    pub locked_amount: u64,
    pub last_updated_slot: u64,
}

/// A summary account as presented with a withdrawal: the program that owns
/// it and its raw data.
pub struct SummaryAccount {
    pub owner_program: Pubkey,
    pub data: Vec<u8>,
}

/// `d` is the data of a summary account that encodes `p`.
pub open spec fn encodes_summary(d: Seq<u8>, p: PositionSummary) -> bool {
    &&& d.len() == POSITION_SUMMARY_ACCOUNT_LEN
    &&& p.vault.bytes@ == d.subrange(8, 40)
    &&& p.owner.bytes@ == d.subrange(40, 72)
    &&& p.open_positions == spec_u64_from_le_bytes(d.subrange(72, 80))
    &&& p.locked_amount == spec_u64_from_le_bytes(d.subrange(80, 88))
    &&& p.last_updated_slot == spec_u64_from_le_bytes(d.subrange(88, 96))
}

fn pubkey_at(data: &Vec<u8>, off: usize) -> (r: Pubkey)
    requires
        off + 32 <= data.len(),
    ensures
        r.bytes@ == data@.subrange(off as int, off + 32),
{
    let mut bytes = [0u8; 32];
    let mut i: usize = 0;
    while i < 32
        invariant
            0 <= i <= 32,
            off + 32 <= data.len(),
            forall|j: int| 0 <= j < i ==> bytes[j] == data@[off + j],
        decreases 32 - i,
    {
        bytes[i] = data[off + i];
        i += 1;
    }
    let r = Pubkey { bytes };
    assert(r.bytes@ =~= data@.subrange(off as int, off + 32));
    r
}

fn u64_at(data: &Vec<u8>, off: usize) -> (r: u64)
    requires
        off + 8 <= data.len(),
    ensures
        r == spec_u64_from_le_bytes(data@.subrange(off as int, off + 8)),
{
    u64_from_le_bytes(slice_subrange(data.as_slice(), off, off + 8))
}

/// Decodes a summary account's data; `None` unless it has exactly the
/// summary account length.
pub fn decode_position_summary(data: &Vec<u8>) -> (r: Option<PositionSummary>)
    ensures
        r is Some <==> data@.len() == POSITION_SUMMARY_ACCOUNT_LEN,
        r matches Some(p) ==> encodes_summary(data@, p),
{
    if data.len() != POSITION_SUMMARY_ACCOUNT_LEN {
        return None;
    }
    Some(
        PositionSummary {
            vault: pubkey_at(data, 8),
            owner: pubkey_at(data, 40),
            open_positions: u64_at(data, 72),
            locked_amount: u64_at(data, 80),
            last_updated_slot: u64_at(data, 88),
        },
    )
}

/// Why one presented summary is refused, checked in this order: its owner
/// program is not allowlisted or its data is no summary or speaks of another
/// vault or owner (`PositionSummaryInvalid`); it reports open positions or a
/// locked amount (`OpenPositionsExist`).
pub open spec fn summary_error(
    s: SummaryAccount,
    authorized: Seq<Pubkey>,
    vault_key: Pubkey,
    owner: Pubkey,
) -> Option<ErrorCode> {
    let d = s.data@;
    if !authorized.contains(s.owner_program) {
        Some(ErrorCode::PositionSummaryInvalid)
    } else if d.len() != POSITION_SUMMARY_ACCOUNT_LEN {
        Some(ErrorCode::PositionSummaryInvalid)
    } else if vault_key.bytes@ != d.subrange(8, 40) || owner.bytes@ != d.subrange(40, 72) {
        Some(ErrorCode::PositionSummaryInvalid)
    } else if spec_u64_from_le_bytes(d.subrange(72, 80)) != 0 || spec_u64_from_le_bytes(
        d.subrange(80, 88),
    ) != 0 {
        Some(ErrorCode::OpenPositionsExist)
    } else {
        None
    }
}

/// The error of the first refused summary, in presentation order.
pub open spec fn first_summary_error(
    s: Seq<SummaryAccount>,
    authorized: Seq<Pubkey>,
    vault_key: Pubkey,
    owner: Pubkey,
) -> Option<ErrorCode>
    decreases s.len(),
{
    if s.len() == 0 {
        None
    } else {
        match first_summary_error(s.drop_last(), authorized, vault_key, owner) {
            Some(e) => Some(e),
            None => summary_error(s.last(), authorized, vault_key, owner),
        }
    }
}

/// One of the presented summaries is owned by `program`.
pub open spec fn has_summary(s: Seq<SummaryAccount>, program: Pubkey) -> bool {
    exists|i: int| 0 <= i < s.len() && #[trigger] s[i].owner_program == program
}

/// Every allowlisted program owns one of the presented summaries.
pub open spec fn summaries_cover(s: Seq<SummaryAccount>, authorized: Seq<Pubkey>) -> bool {
    forall|p: Pubkey| #[trigger] authorized.contains(p) ==> has_summary(s, p)
}

/// Why the presented summaries do not attest zero exposure: none is needed
/// when no program is allowlisted; otherwise each must pass and every
/// allowlisted program must have presented one (`PositionSummaryMissing`).
pub open spec fn summaries_error(
    s: Seq<SummaryAccount>,
    authorized: Seq<Pubkey>,
    vault_key: Pubkey,
    owner: Pubkey,
) -> Option<ErrorCode> {
    if authorized.len() == 0 {
        None
    } else {
        match first_summary_error(s, authorized, vault_key, owner) {
            Some(e) => Some(e),
            None => if summaries_cover(s, authorized) {
                None
            } else {
                Some(ErrorCode::PositionSummaryMissing)
            },
        }
    }
}

proof fn lemma_first_error_persists(
    s: Seq<SummaryAccount>,
    i: int,
    authorized: Seq<Pubkey>,
    vault_key: Pubkey,
    owner: Pubkey,
)
    requires
        0 <= i <= s.len(),
        first_summary_error(s.take(i), authorized, vault_key, owner) is Some,
    ensures
        first_summary_error(s, authorized, vault_key, owner) == first_summary_error(
            s.take(i),
            authorized,
            vault_key,
            owner,
        ),
    decreases s.len(),
{
    if i == s.len() {
        assert(s.take(i) =~= s);
    } else {
        assert(s.take(i) =~= s.drop_last().take(i));
        lemma_first_error_persists(s.drop_last(), i, authorized, vault_key, owner);
    }
}

/// Checks one presented summary.
pub fn check_position_summary(
    summary: &SummaryAccount,
    authorized: &Vec<Pubkey>,
    vault_key: &Pubkey,
    owner: &Pubkey,
) -> (r: Result<(), ErrorCode>)
    ensures
        r == (match summary_error(*summary, authorized@, *vault_key, *owner) {
            Some(e) => Err(e),
            None => Ok(()),
        }),
{
    if !contains_key(authorized, &summary.owner_program) {
        return Err(ErrorCode::PositionSummaryInvalid);
    }
    match decode_position_summary(&summary.data) {
        None => Err(ErrorCode::PositionSummaryInvalid),
        Some(p) => {
            proof {
                assert(p.vault == *vault_key <==> vault_key.bytes@ == summary.data@.subrange(8, 40))
                    by {
                    if vault_key.bytes@ == p.vault.bytes@ {
                        assert(vault_key.bytes =~= p.vault.bytes);
                    }
                }
                assert(p.owner == *owner <==> owner.bytes@ == summary.data@.subrange(40, 72)) by {
                    if owner.bytes@ == p.owner.bytes@ {
                        assert(owner.bytes =~= p.owner.bytes);
                    }
                }
            }
            if p.vault != *vault_key || p.owner != *owner {
                Err(ErrorCode::PositionSummaryInvalid)
            } else if p.open_positions != 0 || p.locked_amount != 0 {
                Err(ErrorCode::OpenPositionsExist)
            } else {
                Ok(())
            }
        },
    }
}

fn has_summary_from(summaries: &Vec<SummaryAccount>, program: &Pubkey) -> (r: bool)
    ensures
        r == has_summary(summaries@, *program),
{
    let mut i: usize = 0;
    while i < summaries.len()
        invariant
            0 <= i <= summaries@.len(),
            forall|j: int| 0 <= j < i ==> #[trigger] summaries@[j].owner_program != *program,
        decreases summaries@.len() - i,
    {
        if summaries[i].owner_program == *program {
            return true;
        }
        i += 1;
    }
    false
}

/// Checks that the presented summaries attest zero exposure to every
/// allowlisted program for this vault and owner.
pub fn check_position_summaries(
    summaries: &Vec<SummaryAccount>,
    authorized: &Vec<Pubkey>,
    vault_key: &Pubkey,
    owner: &Pubkey,
) -> (r: Result<(), ErrorCode>)
    ensures
        r == (match summaries_error(summaries@, authorized@, *vault_key, *owner) {
            Some(e) => Err(e),
            None => Ok(()),
        }),
{
    if authorized.len() == 0 {
        return Ok(());
    }
    let ghost s = summaries@;
    let mut i: usize = 0;
    while i < summaries.len()
        invariant
            s == summaries@,
            authorized@.len() > 0,
            0 <= i <= s.len(),
            first_summary_error(s.take(i as int), authorized@, *vault_key, *owner) is None,
        decreases s.len() - i,
    {
        proof {
            assert(s.take(i + 1).drop_last() =~= s.take(i as int));
            assert(s.take(i + 1).last() == s[i as int]);
        }
        let checked = check_position_summary(&summaries[i], authorized, vault_key, owner);
        if checked.is_err() {
            proof {
                assert(first_summary_error(s.take(i + 1), authorized@, *vault_key, *owner)
                    == summary_error(s[i as int], authorized@, *vault_key, *owner));
                lemma_first_error_persists(s, i + 1, authorized@, *vault_key, *owner);
                assert(first_summary_error(s, authorized@, *vault_key, *owner) == summary_error(
                    s[i as int],
                    authorized@,
                    *vault_key,
                    *owner,
                ));
            }
            return checked;
        }
        i += 1;
    }
    proof {
        assert(s.take(i as int) =~= s);
    }
    let mut j: usize = 0;
    while j < authorized.len()
        invariant
            0 < authorized@.len(),
            0 <= j <= authorized@.len(),
            first_summary_error(s, authorized@, *vault_key, *owner) is None,
            s == summaries@,
            forall|k: int| 0 <= k < j ==> has_summary(s, #[trigger] authorized@[k]),
        decreases authorized@.len() - j,
    {
        if !has_summary_from(summaries, &authorized[j]) {
            proof {
                assert(authorized@.contains(authorized@[j as int]));
            }
            return Err(ErrorCode::PositionSummaryMissing);
        }
        j += 1;
    }
    proof {
        assert forall|p: Pubkey| #[trigger] authorized@.contains(p) implies has_summary(s, p) by {
            let k = choose|k: int| 0 <= k < authorized@.len() && authorized@[k] == p;
            assert(has_summary(s, authorized@[k]));
        }
    }
    Ok(())
}

} // verus!
