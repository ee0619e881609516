use collateral_vault::auth::{authorize_external_caller, count_approvals, SignerAccount};
use collateral_vault::custody::{
    build_metas_from_accounts, check_custody_accounts, check_transfer_custody, AccountRef,
    TokenAccountView,
};
use collateral_vault::error::ErrorCode;
use collateral_vault::keyset::{all_distinct, find_key};
use collateral_vault::ledger::{deposit, initialize_vault};
use collateral_vault::position_manager::{close_position, init_position_summary, open_position};
use collateral_vault::pubkey::Pubkey;
use collateral_vault::registry::{
    add_authorized_program, add_yield_program, initialize_vault_authority,
    remove_authorized_program, remove_yield_program, set_cpi_enforced, set_freeze_flag,
    set_risk_level,
};
use collateral_vault::summary::{check_position_summaries, decode_position_summary, SummaryAccount};
use collateral_vault::vault_admin::{
    add_delegate, disable_vault_multisig, remove_delegate, set_vault_multisig,
};
use collateral_vault::yield_ops::{compound_yield, yield_deposit, yield_withdraw};

fn key(n: u8) -> Pubkey {
    Pubkey::new([n; 32])
}

#[test]
fn pubkey_equality_and_default() {
    let mut bytes = [3u8; 32];
    assert_eq!(key(3), Pubkey::new(bytes));
    bytes[31] = 4;
    assert_ne!(key(3), Pubkey::new(bytes));
    assert!(Pubkey::unset().is_default());
    assert!(!Pubkey::new(bytes).is_default());
    assert_eq!(Pubkey::new(bytes).to_bytes(), bytes);
}

#[test]
fn registry_initialization() {
    let reg = initialize_vault_authority(key(200), vec![key(1), key(2)], Some(true), 7).unwrap();
    assert_eq!(reg.governance, key(200));
    assert_eq!(reg.authorized_programs, vec![key(1), key(2)]);
    assert!(reg.freeze && !reg.cpi_enforced);
    assert_eq!(reg.bump, 7);
    assert!(reg.yield_whitelist.is_empty());
    assert!(!initialize_vault_authority(key(200), vec![], None, 7).unwrap().freeze);
    let dup = initialize_vault_authority(key(200), vec![key(1), key(1)], None, 7);
    assert_eq!(dup.err(), Some(ErrorCode::AlreadyExists));
    let many: Vec<Pubkey> = (0..65u8).map(key).collect();
    assert_eq!(initialize_vault_authority(key(200), many, None, 7).err(), Some(ErrorCode::Overflow));
}

#[test]
fn registry_admin_is_governance_only() {
    let mut reg = initialize_vault_authority(key(200), vec![key(1)], None, 7).unwrap();
    assert_eq!(add_authorized_program(&mut reg, &key(9), key(2)), Err(ErrorCode::Unauthorized));
    assert_eq!(add_authorized_program(&mut reg, &key(200), key(1)), Err(ErrorCode::AlreadyExists));
    assert_eq!(add_authorized_program(&mut reg, &key(200), key(2)), Ok(()));
    assert_eq!(remove_authorized_program(&mut reg, &key(200), &key(3)), Err(ErrorCode::NotFound));
    assert_eq!(remove_authorized_program(&mut reg, &key(200), &key(1)), Ok(()));
    assert_eq!(reg.authorized_programs, vec![key(2)]);
    assert_eq!(set_freeze_flag(&mut reg, &key(9), true), Err(ErrorCode::Unauthorized));
    assert_eq!(set_freeze_flag(&mut reg, &key(200), true), Ok(()));
    assert_eq!(set_cpi_enforced(&mut reg, &key(200), true), Ok(()));
    assert_eq!(set_risk_level(&mut reg, &key(200), 3), Ok(()));
    assert_eq!(set_risk_level(&mut reg, &key(9), 4), Err(ErrorCode::Unauthorized));
    assert!(reg.freeze && reg.cpi_enforced);
    assert_eq!(reg.risk_level, 3);
    assert_eq!(add_yield_program(&mut reg, &key(200), key(60)), Ok(()));
    assert_eq!(add_yield_program(&mut reg, &key(200), key(60)), Err(ErrorCode::AlreadyExists));
    assert_eq!(remove_yield_program(&mut reg, &key(200), &key(61)), Err(ErrorCode::NotFound));
    assert_eq!(remove_yield_program(&mut reg, &key(200), &key(60)), Ok(()));
    for n in 0..63u8 {
        add_authorized_program(&mut reg, &key(200), key(100 + n)).unwrap();
    }
    assert_eq!(add_authorized_program(&mut reg, &key(200), key(250)), Err(ErrorCode::Overflow));
}

#[test]
fn delegates_admin() {
    let mut v = initialize_vault(key(1), key(100), key(101), 1, 0);
    assert_eq!(add_delegate(&mut v, &key(2), key(3)), Err(ErrorCode::Unauthorized));
    assert_eq!(add_delegate(&mut v, &key(1), key(1)), Err(ErrorCode::AlreadyExists));
    assert_eq!(add_delegate(&mut v, &key(1), key(3)), Ok(()));
    assert_eq!(add_delegate(&mut v, &key(1), key(3)), Err(ErrorCode::AlreadyExists));
    assert_eq!(add_delegate(&mut v, &key(1), key(4)), Ok(()));
    assert_eq!(remove_delegate(&mut v, &key(1), &key(3)), Ok(()));
    assert_eq!(v.delegates, vec![key(4)]);
    assert_eq!(remove_delegate(&mut v, &key(1), &key(3)), Err(ErrorCode::NotFound));
    for n in 0..15u8 {
        add_delegate(&mut v, &key(1), key(10 + n)).unwrap();
    }
    assert_eq!(add_delegate(&mut v, &key(1), key(40)), Err(ErrorCode::Overflow));
}

#[test]
fn multisig_admin() {
    let mut v = initialize_vault(key(1), key(100), key(101), 1, 0);
    assert_eq!(set_vault_multisig(&mut v, &key(2), vec![key(5)], 1), Err(ErrorCode::Unauthorized));
    assert_eq!(set_vault_multisig(&mut v, &key(1), vec![key(5)], 2), Err(ErrorCode::InvalidAmount));
    assert_eq!(set_vault_multisig(&mut v, &key(1), vec![key(5), key(5)], 1), Err(ErrorCode::InvalidAmount));
    let eleven: Vec<Pubkey> = (0..11u8).map(key).collect();
    assert_eq!(set_vault_multisig(&mut v, &key(1), eleven, 1), Err(ErrorCode::InvalidAmount));
    assert_eq!(set_vault_multisig(&mut v, &key(1), vec![key(5), key(6)], 2), Ok(()));
    assert_eq!(v.multisig_threshold, 2);
    assert_eq!(disable_vault_multisig(&mut v, &key(2)), Err(ErrorCode::Unauthorized));
    assert_eq!(disable_vault_multisig(&mut v, &key(1)), Ok(()));
    assert_eq!(v.multisig_threshold, 0);
    assert!(v.multisig_signers.is_empty());
}

#[test]
fn approvals_count_distinct_signers() {
    let signers = vec![key(1), key(2), key(3)];
    let s = |k: Pubkey| SignerAccount { key: k, is_signer: true };
    assert_eq!(count_approvals(&signers, &key(1), &vec![s(key(2))]), 2);
    assert_eq!(count_approvals(&signers, &key(1), &vec![s(key(1)), s(key(1))]), 1);
    assert_eq!(count_approvals(&signers, &key(9), &vec![s(key(3)), SignerAccount { key: key(2), is_signer: false }]), 1);
    assert_eq!(count_approvals(&signers, &key(9), &vec![]), 0);
}

#[test]
fn external_caller_rule() {
    let mut reg = initialize_vault_authority(key(200), vec![key(50)], None, 1).unwrap();
    assert_eq!(authorize_external_caller(&reg, &key(1), &Some(key(50))), Ok(()));
    set_cpi_enforced(&mut reg, &key(200), true).unwrap();
    assert_eq!(authorize_external_caller(&reg, &key(1), &Some(key(50))), Err(ErrorCode::UnauthorizedProgram));
    assert_eq!(authorize_external_caller(&reg, &key(50), &Some(key(50))), Ok(()));
}

#[test]
fn yield_routing() {
    let mut v = initialize_vault(key(1), key(100), key(101), 1, 0);
    deposit(&mut v, &key(1), &vec![], 100).unwrap();
    let mut reg = initialize_vault_authority(key(200), vec![], None, 1).unwrap();
    assert_eq!(yield_deposit(&mut v, &reg, &key(1), &vec![], &key(60), 10), Err(ErrorCode::YieldProgramNotWhitelisted));
    add_yield_program(&mut reg, &key(200), key(60)).unwrap();
    add_yield_program(&mut reg, &key(200), key(61)).unwrap();
    assert_eq!(yield_deposit(&mut v, &reg, &key(1), &vec![], &key(60), 0), Err(ErrorCode::InvalidAmount));
    assert_eq!(yield_deposit(&mut v, &reg, &key(2), &vec![], &key(60), 10), Err(ErrorCode::Unauthorized));
    assert_eq!(yield_deposit(&mut v, &reg, &key(1), &vec![], &key(60), 101), Err(ErrorCode::InsufficientFunds));
    assert_eq!(yield_deposit(&mut v, &reg, &key(1), &vec![], &key(60), 40), Ok(()));
    assert_eq!((v.total_balance, v.available_balance, v.yield_deposited_balance), (60, 60, 40));
    assert_eq!(v.active_yield_program, key(60));
    assert_eq!(yield_deposit(&mut v, &reg, &key(1), &vec![], &key(61), 10), Ok(()));
    assert_eq!(v.active_yield_program, key(60));
    assert_eq!(yield_withdraw(&mut v, &reg, &key(1), &vec![], &key(60), 51), Err(ErrorCode::InsufficientYieldBalance));
    assert_eq!(yield_withdraw(&mut v, &reg, &key(1), &vec![], &key(60), 50), Ok(()));
    assert_eq!((v.total_balance, v.available_balance, v.yield_deposited_balance), (100, 100, 0));
    assert_eq!(compound_yield(&mut v, &reg, &key(1), &vec![], &key(60), 1, 77), Err(ErrorCode::InsufficientYieldBalance));
    assert_eq!(compound_yield(&mut v, &reg, &key(1), &vec![], &key(60), 0, 77), Ok(()));
    assert_eq!(v.last_compounded_at, 77);
    assert_eq!(v.total_balance, 100);
}

fn summary_bytes(vault: u8, owner: u8, open: u64, locked: u64, slot: u64) -> Vec<u8> {
    let mut d = vec![1u8, 2, 3, 4, 5, 6, 7, 8];
    d.extend_from_slice(&[vault; 32]);
    d.extend_from_slice(&[owner; 32]);
    d.extend_from_slice(&open.to_le_bytes());
    d.extend_from_slice(&locked.to_le_bytes());
    d.extend_from_slice(&slot.to_le_bytes());
    d
}

#[test]
fn summary_decoding() {
    let d = summary_bytes(9, 1, 0x0102030405060708, 3, 77);
    assert_eq!(d.len(), 96);
    let p = decode_position_summary(&d).unwrap();
    assert_eq!(p.vault, key(9));
    assert_eq!(p.owner, key(1));
    assert_eq!(p.open_positions, 0x0102030405060708);
    assert_eq!(p.locked_amount, 3);
    assert_eq!(p.last_updated_slot, 77);
    assert!(decode_position_summary(&d[..95].to_vec()).is_none());
    assert!(decode_position_summary(&vec![]).is_none());
}

#[test]
fn summaries_not_needed_without_allowlist() {
    assert_eq!(check_position_summaries(&vec![], &vec![], &key(9), &key(1)), Ok(()));
    let s = vec![SummaryAccount { owner_program: key(50), data: summary_bytes(9, 1, 0, 0, 0) }];
    assert_eq!(check_position_summaries(&s, &vec![key(50)], &key(9), &key(1)), Ok(()));
    assert_eq!(check_position_summaries(&s, &vec![key(50)], &key(8), &key(1)), Err(ErrorCode::PositionSummaryInvalid));
}

#[test]
fn custody_account_checks() {
    let view = |mint: u8, owner: u8, prog: u8| TokenAccountView { mint: key(mint), owner: key(owner), program_owner: key(prog) };
    let (mint, vault_key, tp) = (key(101), key(150), key(30));
    let user = view(101, 1, 30);
    let custody = view(101, 150, 30);
    assert_eq!(check_custody_accounts(&mint, &vault_key, &Some(key(1)), &user, &custody, &tp), Ok(()));
    assert_eq!(check_custody_accounts(&mint, &vault_key, &Some(key(2)), &user, &custody, &tp), Err(ErrorCode::Unauthorized));
    assert_eq!(check_custody_accounts(&mint, &vault_key, &None, &view(102, 1, 30), &custody, &tp), Err(ErrorCode::Unauthorized));
    assert_eq!(check_custody_accounts(&mint, &vault_key, &None, &user, &view(101, 151, 30), &tp), Err(ErrorCode::Unauthorized));
    assert_eq!(check_custody_accounts(&mint, &vault_key, &None, &view(101, 1, 31), &custody, &tp), Err(ErrorCode::InvalidTokenProgramOwner));
    assert_eq!(check_transfer_custody(&key(150), &mint, &custody, &key(151), &mint, &view(101, 151, 30), &tp), Ok(()));
    assert_eq!(check_transfer_custody(&key(150), &mint, &custody, &key(151), &mint, &view(101, 150, 30), &tp), Err(ErrorCode::Unauthorized));
    assert_eq!(check_transfer_custody(&key(150), &mint, &custody, &key(151), &mint, &view(101, 151, 31), &tp), Err(ErrorCode::InvalidTokenProgramOwner));
}

#[test]
fn passthrough_metas_add_vault_signature() {
    let accounts = vec![
        AccountRef { key: key(1), is_signer: false, is_writable: true },
        AccountRef { key: key(150), is_signer: false, is_writable: false },
        AccountRef { key: key(2), is_signer: true, is_writable: false },
    ];
    let metas = build_metas_from_accounts(&accounts, &key(150));
    assert_eq!(metas.len(), 3);
    assert!(!metas[0].is_signer && metas[0].is_writable);
    assert!(metas[1].is_signer && !metas[1].is_writable);
    assert!(metas[2].is_signer);
    assert_eq!(metas[1].key, key(150));
}

#[test]
fn position_manager_bookkeeping() {
    let mut s = init_position_summary(key(150), key(1), 5);
    assert_eq!((s.open_positions, s.locked_amount), (0, 0));
    assert_eq!(s.ensure_matches(&key(150), &key(2)), Err(ErrorCode::Unauthorized));
    assert_eq!(open_position(&mut s, &key(150), &key(1), 0, 6), Err(ErrorCode::InvalidAmount));
    assert_eq!(open_position(&mut s, &key(151), &key(1), 10, 6), Err(ErrorCode::Unauthorized));
    assert_eq!(open_position(&mut s, &key(150), &key(1), 10, 6), Ok(()));
    assert_eq!((s.open_positions, s.locked_amount, s.last_updated_slot), (1, 10, 6));
    assert_eq!(close_position(&mut s, &key(150), &key(1), 11, 7), Err(ErrorCode::Overflow));
    assert_eq!(close_position(&mut s, &key(150), &key(1), 10, 7), Ok(()));
    assert_eq!(close_position(&mut s, &key(150), &key(1), 1, 8), Err(ErrorCode::Unauthorized));
    assert_eq!((s.open_positions, s.locked_amount, s.last_updated_slot), (0, 0, 7));
}

#[test]
fn key_set_helpers() {
    let keys = vec![key(1), key(2), key(3)];
    assert_eq!(find_key(&keys, &key(3)), Some(2));
    assert_eq!(find_key(&keys, &key(4)), None);
    assert!(all_distinct(&keys));
    assert!(!all_distinct(&vec![key(1), key(2), key(1)]));
}
