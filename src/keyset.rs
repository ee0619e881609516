//! Bounded sets of identities kept in a `Vec` without repetition.
use vstd::prelude::*;

use crate::error::ErrorCode;
use crate::pubkey::Pubkey;
use crate::state::bounded_key_set;

verus! {

/// The set `s` without `key`, as a swap-removal leaves it: the last element
/// takes the place of the removed one.
pub open spec fn swap_removed(s: Seq<Pubkey>, key: Pubkey) -> Seq<Pubkey> {
    s.update(s.index_of(key), s.last()).drop_last()
}

pub fn contains_key(keys: &Vec<Pubkey>, key: &Pubkey) -> (r: bool)
    ensures
        r == keys@.contains(*key),
{
    match find_key(keys, key) {
        Some(_) => true,
        None => false,
    }
}

/// The position of `key` in `keys`, if it is there.
pub fn find_key(keys: &Vec<Pubkey>, key: &Pubkey) -> (r: Option<usize>)
    ensures
        match r {
            Some(i) => i < keys@.len() && keys@[i as int] == *key,
            None => !keys@.contains(*key),
        },
{
    let mut i: usize = 0;
    while i < keys.len()
        invariant
            0 <= i <= keys@.len(),
            forall|j: int| 0 <= j < i ==> keys@[j] != *key,
        decreases keys@.len() - i,
    {
        if keys[i] == *key {
            return Some(i);
        }
        i += 1;
    }
    None
}

/// Whether no identity occurs twice in `keys`.
pub fn all_distinct(keys: &Vec<Pubkey>) -> (r: bool)
    ensures
        r == keys@.no_duplicates(),
{
    let mut i: usize = 0;
    while i < keys.len()
        invariant
            0 <= i <= keys@.len(),
            forall|a: int, b: int| 0 <= a < i && 0 <= b < keys@.len() && a != b ==> keys@[a] != keys@[b],
        decreases keys@.len() - i,
    {
        let mut j: usize = 0;
        while j < keys.len()
            invariant
                0 <= i < keys@.len(),
                0 <= j <= keys@.len(),
                forall|a: int, b: int| 0 <= a < i && 0 <= b < keys@.len() && a != b ==> keys@[a] != keys@[b],
                forall|b: int| 0 <= b < j && b != i ==> keys@[i as int] != keys@[b],
            decreases keys@.len() - j,
        {
            if j != i && keys[i] == keys[j] {
                return false;
            }
            j += 1;
        }
        i += 1;
    }
    true
}

/// Adds `key` to a bounded set: a key already present is refused with
/// `AlreadyExists`, a full set with `Overflow`.
pub fn insert_key(keys: &mut Vec<Pubkey>, key: Pubkey, cap: usize) -> (r: Result<(), ErrorCode>)
    requires
        bounded_key_set(old(keys)@, cap),
    ensures
        r == (if old(keys)@.contains(key) {
            Err(ErrorCode::AlreadyExists)
        } else if old(keys)@.len() >= cap {
            Err(ErrorCode::Overflow)
        } else {
            Ok(())
        }),
        r is Ok ==> final(keys)@ == old(keys)@.push(key),
        r is Err ==> final(keys)@ == old(keys)@,
        bounded_key_set(final(keys)@, cap),
{
    if contains_key(keys, &key) {
        return Err(ErrorCode::AlreadyExists);
    }
    if keys.len() >= cap {
        return Err(ErrorCode::Overflow);
    }
    keys.push(key);
    proof {
        let s = final(keys)@;
        assert forall|a: int, b: int| 0 <= a < s.len() && 0 <= b < s.len() && a != b implies s[a]
            != s[b] by {
            if a == s.len() - 1 {
                assert(old(keys)@.contains(s[b]));
            } else if b == s.len() - 1 {
                assert(old(keys)@.contains(s[a]));
            }
        }
    }
    Ok(())
}

/// Removes `key` from a set; `NotFound` when it is not there.
pub fn remove_key(keys: &mut Vec<Pubkey>, key: &Pubkey) -> (r: Result<(), ErrorCode>)
    requires
        old(keys)@.no_duplicates(),
    ensures
        r == (if old(keys)@.contains(*key) {
            Ok(())
        } else {
            Err(ErrorCode::NotFound)
        }),
        r is Ok ==> final(keys)@ == swap_removed(old(keys)@, *key),
        r is Err ==> final(keys)@ == old(keys)@,
        final(keys)@.no_duplicates(),
        forall|k: Pubkey| final(keys)@.contains(k) <==> old(keys)@.contains(k) && (r is Ok ==> k != *key),
        final(keys)@.len() <= old(keys)@.len(),
{
    match find_key(keys, key) {
        None => Err(ErrorCode::NotFound),
        Some(i) => {
            let ghost s = keys@;
            proof {
                let j = s.index_of(*key);
                assert(s.contains(*key));
                assert(0 <= j < s.len() && s[j] == *key);
                assert(j == i);
            }
            keys.swap_remove(i);
            proof {
                let t = final(keys)@;
                let n = s.len() - 1;
                assert(t == s.update(i as int, s.last()).drop_last());
                assert forall|a: int, b: int| 0 <= a < t.len() && 0 <= b < t.len() && a != b implies t[a]
                    != t[b] by {
                    let sa = if a == i { n } else { a };
                    let sb = if b == i { n } else { b };
                    assert(t[a] == s[sa] && t[b] == s[sb]);
                }
                assert forall|k: Pubkey| t.contains(k) <==> s.contains(k) && k != *key by {
                    if s.contains(k) && k != *key {
                        let a = choose|a: int| 0 <= a < s.len() && s[a] == k;
                        if a == n {
                            assert(t[i as int] == k);
                        } else {
                            assert(a != i);
                            assert(t[a] == k);
                        }
                    }
                    if t.contains(k) {
                        let a = choose|a: int| 0 <= a < t.len() && t[a] == k;
                        let sa = if a == i { n } else { a };
                        assert(s[sa] == k);
                        assert(sa != i);
                    }
                }
            }
            Ok(())
        },
    }
}

} // verus!
