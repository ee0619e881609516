use collateral_vault::error::ErrorCode;
use collateral_vault::ledger::{deposit, initialize_vault, withdraw};
use collateral_vault::pubkey::Pubkey;
use collateral_vault::registry::initialize_vault_authority;
use collateral_vault::state::{CollateralVault, PendingWithdrawalEntry, TimelockEntry};
use collateral_vault::timelock::{release_matured, release_timelocks, schedule_timelock};
use collateral_vault::withdraw_policy::{
    add_withdraw_whitelist, consume_matured, matured_pending, remove_withdraw_whitelist,
    request_withdraw, set_withdraw_min_delay, set_withdraw_rate_limit,
};

fn key(n: u8) -> Pubkey {
    Pubkey::new([n; 32])
}

fn funded_vault(amount: u64) -> CollateralVault {
    let mut v = initialize_vault(key(1), key(100), key(101), 255, 0);
    deposit(&mut v, &key(1), &vec![], amount).unwrap();
    v
}

fn owner_withdraw(v: &mut CollateralVault, amount: u64, now: i64) -> Result<(), ErrorCode> {
    let reg = initialize_vault_authority(key(200), vec![], None, 1).unwrap();
    withdraw(v, &reg, &key(150), &key(1), &vec![], &vec![], &key(1), amount, now)
}

#[test]
fn timelock_schedule_and_release() {
    let mut v = funded_vault(100);
    let now = 1_000;
    assert_eq!(schedule_timelock(&mut v, &key(1), &vec![], 30, 3600, now), Ok(()));
    assert_eq!(v.available_balance, 70);
    assert_eq!(v.total_balance, 70);
    assert_eq!(v.timelocks, vec![TimelockEntry { amount: 30, unlock_time: now + 3600 }]);
    assert_eq!(release_timelocks(&mut v, &key(1), &vec![], now + 3599), Ok(0));
    assert_eq!((v.total_balance, v.available_balance), (70, 70));
    assert_eq!(v.timelocks.len(), 1);
    assert_eq!(release_timelocks(&mut v, &key(1), &vec![], now + 3600), Ok(30));
    assert_eq!((v.total_balance, v.available_balance), (100, 100));
    assert!(v.timelocks.is_empty());
}

#[test]
fn timelock_release_keeps_unmatured_entries_in_order() {
    let entries = vec![
        TimelockEntry { amount: 5, unlock_time: 10 },
        TimelockEntry { amount: 7, unlock_time: 30 },
        TimelockEntry { amount: 11, unlock_time: 20 },
        TimelockEntry { amount: 13, unlock_time: 40 },
    ];
    let (released, rest) = release_matured(&entries, 20).unwrap();
    assert_eq!(released, 16);
    assert_eq!(rest, vec![entries[1], entries[3]]);
    let big = vec![
        TimelockEntry { amount: u64::MAX, unlock_time: 0 },
        TimelockEntry { amount: 1, unlock_time: 0 },
    ];
    assert!(release_matured(&big, 0).is_none());
    assert_eq!(release_matured(&big, -1).unwrap().0, 0);
}

#[test]
fn timelock_schedule_errors() {
    let mut v = funded_vault(100);
    assert_eq!(schedule_timelock(&mut v, &key(1), &vec![], 0, 10, 0), Err(ErrorCode::InvalidAmount));
    assert_eq!(schedule_timelock(&mut v, &key(1), &vec![], 5, -1, 0), Err(ErrorCode::InvalidAmount));
    assert_eq!(schedule_timelock(&mut v, &key(2), &vec![], 5, 10, 0), Err(ErrorCode::Unauthorized));
    assert_eq!(schedule_timelock(&mut v, &key(1), &vec![], 101, 10, 0), Err(ErrorCode::InsufficientFunds));
    assert_eq!(schedule_timelock(&mut v, &key(1), &vec![], 5, 10, i64::MAX - 5), Err(ErrorCode::Overflow));
    assert_eq!(release_timelocks(&mut v, &key(2), &vec![], 0), Err(ErrorCode::Unauthorized));
    for _ in 0..64 {
        schedule_timelock(&mut v, &key(1), &vec![], 1, 10, 0).unwrap();
    }
    assert_eq!(schedule_timelock(&mut v, &key(1), &vec![], 1, 10, 0), Err(ErrorCode::Overflow));
    assert_eq!(v.available_balance, 36);
}

#[test]
fn rate_limit_window() {
    let mut v = funded_vault(500);
    assert_eq!(set_withdraw_rate_limit(&mut v, &key(1), 60, 100), Ok(()));
    let t = 10_000;
    assert_eq!(owner_withdraw(&mut v, 60, t), Ok(()));
    assert_eq!(owner_withdraw(&mut v, 50, t), Err(ErrorCode::Unauthorized));
    assert_eq!(v.withdrawn_in_window, 60);
    assert_eq!(owner_withdraw(&mut v, 50, t + 61), Ok(()));
    assert_eq!(v.last_withdrawal_window_start, t + 61);
    assert_eq!(v.withdrawn_in_window, 50);
    assert_eq!(v.total_balance, 390);
}

#[test]
fn rate_limit_reset_by_policy_change() {
    let mut v = funded_vault(500);
    set_withdraw_rate_limit(&mut v, &key(1), 60, 100).unwrap();
    owner_withdraw(&mut v, 100, 5).unwrap();
    assert_eq!(owner_withdraw(&mut v, 1, 6), Err(ErrorCode::Unauthorized));
    set_withdraw_rate_limit(&mut v, &key(1), 60, 100).unwrap();
    assert_eq!((v.last_withdrawal_window_start, v.withdrawn_in_window), (0, 0));
    assert_eq!(owner_withdraw(&mut v, 1, 6), Ok(()));
    assert_eq!(set_withdraw_rate_limit(&mut v, &key(2), 1, 1), Err(ErrorCode::Unauthorized));
}

#[test]
fn min_delay_queue_consumes_matured_requests() {
    let mut v = funded_vault(500);
    assert_eq!(request_withdraw(&mut v, &key(1), 10, 0), Err(ErrorCode::Unauthorized));
    assert_eq!(set_withdraw_min_delay(&mut v, &key(1), -1), Err(ErrorCode::InvalidAmount));
    assert_eq!(set_withdraw_min_delay(&mut v, &key(1), 100), Ok(()));
    assert_eq!(request_withdraw(&mut v, &key(1), 0, 0), Err(ErrorCode::InvalidAmount));
    assert_eq!(request_withdraw(&mut v, &key(2), 5, 0), Err(ErrorCode::Unauthorized));
    request_withdraw(&mut v, &key(1), 30, 0).unwrap();
    request_withdraw(&mut v, &key(1), 40, 50).unwrap();
    assert_eq!(v.pending_withdrawals[0], PendingWithdrawalEntry { amount: 30, requested_at: 0, executable_at: 100 });
    assert_eq!(owner_withdraw(&mut v, 10, 99), Err(ErrorCode::Unauthorized));
    assert_eq!(owner_withdraw(&mut v, 31, 100), Err(ErrorCode::Unauthorized));
    assert_eq!(owner_withdraw(&mut v, 20, 100), Ok(()));
    assert_eq!(v.pending_withdrawals.len(), 2);
    assert_eq!(v.pending_withdrawals[0].amount, 10);
    assert_eq!(owner_withdraw(&mut v, 45, 150), Ok(()));
    assert_eq!(v.pending_withdrawals, vec![PendingWithdrawalEntry { amount: 5, requested_at: 50, executable_at: 150 }]);
    assert_eq!(v.total_balance, 435);
}

#[test]
fn pending_helpers() {
    let q = vec![
        PendingWithdrawalEntry { amount: 10, requested_at: 0, executable_at: 5 },
        PendingWithdrawalEntry { amount: 20, requested_at: 0, executable_at: 50 },
        PendingWithdrawalEntry { amount: 30, requested_at: 0, executable_at: 6 },
    ];
    assert_eq!(matured_pending(&q, 10), Some(40));
    assert_eq!(consume_matured(&q, 10, 35), vec![q[1], PendingWithdrawalEntry { amount: 5, ..q[2] }]);
    assert_eq!(consume_matured(&q, 10, 0), q);
    let big = vec![
        PendingWithdrawalEntry { amount: u64::MAX, requested_at: 0, executable_at: 0 },
        PendingWithdrawalEntry { amount: 1, requested_at: 0, executable_at: 0 },
    ];
    assert_eq!(matured_pending(&big, 0), None);
    assert_eq!(matured_pending(&big, -1), Some(0));
}

#[test]
fn pending_queue_overflow_is_reported() {
    let mut v = funded_vault(500);
    set_withdraw_min_delay(&mut v, &key(1), 1).unwrap();
    request_withdraw(&mut v, &key(1), u64::MAX, 0).unwrap();
    request_withdraw(&mut v, &key(1), 1, 0).unwrap();
    assert_eq!(owner_withdraw(&mut v, 5, 10), Err(ErrorCode::Overflow));
    assert_eq!(request_withdraw(&mut v, &key(1), 1, i64::MAX), Err(ErrorCode::Overflow));
    for _ in 0..30 {
        request_withdraw(&mut v, &key(1), 1, 0).unwrap();
    }
    assert_eq!(request_withdraw(&mut v, &key(1), 1, 0), Err(ErrorCode::Overflow));
}

#[test]
fn whitelist_add_remove() {
    let mut v = funded_vault(5);
    assert_eq!(add_withdraw_whitelist(&mut v, &key(2), key(7)), Err(ErrorCode::Unauthorized));
    assert_eq!(add_withdraw_whitelist(&mut v, &key(1), key(7)), Ok(()));
    assert_eq!(add_withdraw_whitelist(&mut v, &key(1), key(7)), Err(ErrorCode::AlreadyExists));
    assert_eq!(remove_withdraw_whitelist(&mut v, &key(1), &key(8)), Err(ErrorCode::NotFound));
    assert_eq!(remove_withdraw_whitelist(&mut v, &key(1), &key(7)), Ok(()));
    assert!(v.withdraw_whitelist.is_empty());
    for n in 0..16u8 {
        add_withdraw_whitelist(&mut v, &key(1), key(20 + n)).unwrap();
    }
    assert_eq!(add_withdraw_whitelist(&mut v, &key(1), key(60)), Err(ErrorCode::Overflow));
}
