use anchor_lang::prelude::Pubkey;
use nft_staking::custody::{custody_handle, custody_seeds, custody_signer_seeds};
use nft_staking::stake::Stake;
use nft_staking::state::{Key, LockAction, StakeAccount, StakeConfig, StakeError, UserAccount};
use nft_staking::unstake::{elapsed_days, points_earned, Unstake};

const DAY: i64 = 86400;

fn key(b: u8) -> Key {
    Key::new([b; 32])
}

fn bump() -> u8 {
    found_handle(&key(1)).1
}

fn handle() -> Key {
    found_handle(&key(1)).0
}

fn program() -> Key {
    key(42)
}

fn config_key() -> Key {
    key(43)
}

/// The handle and bump that the runtime finds for `user`'s custody record.
fn found_handle(user: &Key) -> (Key, u8) {
    let (pda, bump) = Pubkey::find_program_address(
        &[b"stake", &config_key().bytes, &user.bytes],
        &Pubkey::new_from_array(program().bytes),
    );
    (Key::new(pda.to_bytes()), bump)
}

/// A bump with which `user`'s seeds give no valid address.
fn bad_bump(user: &Key) -> u8 {
    let program = Pubkey::new_from_array(program().bytes);
    (0..=255u8)
        .rev()
        .find(|b| {
            Pubkey::create_program_address(
                &[b"stake", &config_key().bytes, &user.bytes, &[*b]],
                &program,
            )
            .is_err()
        })
        .unwrap()
}

fn config(max_stake: u8, freeze_period: u32, points_per_stake: u8) -> StakeConfig {
    StakeConfig { points_per_stake, max_stake, freeze_period, bump: 254 }
}

fn ledger(points: u32, amount_staked: u8) -> UserAccount {
    UserAccount { points, amount_staked, bump: 253 }
}

fn stake_ctx(cfg: StakeConfig, acct: UserAccount, asset: u8) -> Stake {
    Stake {
        user: key(1),
        asset: key(asset),
        program: program(),
        config_key: config_key(),
        config: cfg,
        user_account: acct,
        stake_account: None,
    }
}

fn unstake_ctx(s: &Stake) -> Unstake {
    Unstake {
        user: s.user,
        program: s.program,
        config_key: s.config_key,
        config: s.config,
        user_account: s.user_account,
        stake_account: s.stake_account,
    }
}

#[test]
fn freeze_period_scenario() {
    let mut s = stake_ctx(config(3, 5, 10), ledger(0, 0), 7);
    assert!(s.stake(bump(), 0).is_ok());
    let mut u = unstake_ctx(&s);
    assert!(matches!(u.unstake(4 * DAY), Err(StakeError::FreezePeriodNotPassed)));
    assert!(u.stake_account.is_some());
    assert_eq!(u.user_account, ledger(0, 1));
    let actions = u.unstake(10 * DAY).unwrap();
    assert_eq!(actions.len(), 2);
    assert_eq!(u.user_account.points, 100);
    assert_eq!(u.user_account.amount_staked, 0);
    assert!(u.stake_account.is_none());
}

#[test]
fn max_stake_scenario() {
    let cfg = config(1, 5, 10);
    let mut a = stake_ctx(cfg, ledger(0, 0), 7);
    assert!(a.stake(bump(), 0).is_ok());
    assert_eq!(a.user_account.amount_staked, 1);
    let mut b = stake_ctx(cfg, a.user_account, 8);
    assert!(matches!(b.stake(bump(), 10), Err(StakeError::MaxStakeReached)));
    assert!(b.stake_account.is_none());
}

#[test]
fn stake_at_capacity_changes_nothing() {
    let mut s = stake_ctx(config(2, 5, 10), ledger(30, 2), 7);
    let r = s.stake(bump(), 50);
    assert!(matches!(r, Err(StakeError::MaxStakeReached)));
    assert!(s.stake_account.is_none());
    assert_eq!(s.user_account, ledger(30, 2));
}

#[test]
fn stake_creates_record_and_lock() {
    let mut s = stake_ctx(config(2, 5, 10), ledger(0, 0), 7);
    let r = s.stake(bump(), 1234).unwrap();
    match r {
        LockAction::Freeze { asset, delegate } => {
            assert_eq!(asset.bytes, [7; 32]);
            assert_eq!(delegate.bytes, handle().bytes);
        }
        _ => panic!("expected a freeze instruction"),
    }
    let rec = s.stake_account.unwrap();
    assert_eq!(rec.owner.bytes, [1; 32]);
    assert_eq!(rec.mint.bytes, [7; 32]);
    assert_eq!(rec.staked_at, 1234);
    assert_eq!(rec.bump, bump());
    assert_eq!(s.user_account, ledger(0, 1));
}

#[test]
fn stake_twice_into_one_slot_fails() {
    let mut s = stake_ctx(config(5, 5, 10), ledger(0, 0), 7);
    assert!(s.stake(bump(), 0).is_ok());
    assert!(matches!(s.stake(bump(), 10), Err(StakeError::AlreadyStaked)));
    assert_eq!(s.user_account, ledger(0, 1));
}

#[test]
fn unstake_at_exact_freeze_period_fails() {
    let mut s = stake_ctx(config(3, 5, 10), ledger(0, 0), 7);
    s.stake(bump(), 1000).unwrap();
    let mut u = unstake_ctx(&s);
    assert!(matches!(u.unstake(1000 + 6 * DAY - 1), Err(StakeError::FreezePeriodNotPassed)));
    assert!(u.unstake(1000 + 6 * DAY).is_ok());
    assert_eq!(u.user_account.points, 60);
}

#[test]
fn unstake_by_other_user_fails() {
    let mut s = stake_ctx(config(3, 0, 10), ledger(0, 0), 7);
    s.stake(bump(), 0).unwrap();
    let mut u = unstake_ctx(&s);
    u.user = key(2);
    assert!(matches!(u.unstake(100 * DAY), Err(StakeError::NotOwner)));
    assert!(u.stake_account.is_some());
    assert_eq!(u.user_account, ledger(0, 1));
}

#[test]
fn unstake_without_record_fails() {
    let s = stake_ctx(config(3, 0, 10), ledger(0, 1), 7);
    let mut u = unstake_ctx(&s);
    assert!(matches!(u.unstake(100 * DAY), Err(StakeError::NotStaked)));
}

#[test]
fn unstake_with_zero_counter_underflows() {
    let rec = StakeAccount { owner: key(1), mint: key(7), staked_at: 0, bump: bump() };
    let mut u = Unstake {
        user: key(1),
        program: program(),
        config_key: config_key(),
        config: config(3, 0, 10),
        user_account: ledger(0, 0),
        stake_account: Some(rec),
    };
    assert!(matches!(u.unstake(3 * DAY), Err(StakeError::Underflow)));
    assert!(u.stake_account.is_some());
}

#[test]
fn unstake_points_overflow() {
    let rec = StakeAccount { owner: key(1), mint: key(7), staked_at: 0, bump: bump() };
    let mut u = Unstake {
        user: key(1),
        program: program(),
        config_key: config_key(),
        config: config(3, 0, 10),
        user_account: ledger(u32::MAX - 5, 1),
        stake_account: Some(rec),
    };
    assert!(matches!(u.unstake(DAY), Err(StakeError::ArithmeticOverflow)));
    assert_eq!(u.user_account, ledger(u32::MAX - 5, 1));
    assert!(u.unstake(DAY / 2).is_err());
}

#[test]
fn unstake_points_fill_counter_exactly() {
    let rec = StakeAccount { owner: key(1), mint: key(7), staked_at: 0, bump: bump() };
    let mut u = Unstake {
        user: key(1),
        program: program(),
        config_key: config_key(),
        config: config(3, 0, 10),
        user_account: ledger(u32::MAX - 10, 1),
        stake_account: Some(rec),
    };
    assert!(u.unstake(DAY).is_ok());
    assert_eq!(u.user_account.points, u32::MAX);
}

#[test]
fn round_trip_releases_asset() {
    let mut s = stake_ctx(config(3, 2, 7), ledger(5, 1), 7);
    let freeze = s.stake(bump(), 100).unwrap();
    assert!(matches!(freeze, LockAction::Freeze { .. }));
    let mut u = unstake_ctx(&s);
    let actions = u.unstake(100 + 3 * DAY + 17).unwrap();
    assert_eq!(actions.len(), 2);
    match actions[0] {
        LockAction::Thaw { asset, delegate } => {
            assert_eq!(asset.bytes, [7; 32]);
            assert_eq!(delegate.bytes, handle().bytes);
        }
        _ => panic!("expected a thaw instruction first"),
    }
    match actions[1] {
        LockAction::Revoke { asset } => assert_eq!(asset.bytes, [7; 32]),
        _ => panic!("expected a revoke instruction second"),
    }
    assert!(u.stake_account.is_none());
    assert_eq!(u.user_account, ledger(5 + 21, 1));
}

#[test]
fn elapsed_days_rounds_down() {
    assert_eq!(elapsed_days(0, 10 * DAY), 10);
    assert_eq!(elapsed_days(0, 10 * DAY - 1), 9);
    assert_eq!(elapsed_days(5 * DAY, 5 * DAY), 0);
    assert_eq!(elapsed_days(DAY, 0), -1);
    assert_eq!(elapsed_days(1, 0), -1);
    assert_eq!(elapsed_days(2 * DAY + 1, 0), -3);
    assert_eq!(elapsed_days(i64::MIN, i64::MAX), ((u64::MAX) / 86400) as i64);
    assert_eq!(elapsed_days(i64::MAX, i64::MIN), -(((u64::MAX) / 86400) as i64) - 1);
}

#[test]
fn points_are_days_times_rate() {
    assert_eq!(points_earned(10, 10), Some(100));
    assert_eq!(points_earned(0, 255), Some(0));
    assert_eq!(points_earned(u64::MAX, 0), Some(0));
    assert_eq!(points_earned(u32::MAX as u64, 1), Some(u32::MAX));
    assert_eq!(points_earned(u32::MAX as u64, 2), None);
    assert_eq!(points_earned(u64::MAX, 1), None);
}

#[test]
fn custody_seeds_are_deterministic() {
    let a = custody_seeds(&key(3), &key(4));
    assert_eq!(a.len(), 3);
    assert_eq!(a[0], b"stake".to_vec());
    assert_eq!(a[1], vec![3u8; 32]);
    assert_eq!(a[2], vec![4u8; 32]);
    assert_eq!(a, custody_seeds(&key(3), &key(4)));
    let s = custody_signer_seeds(&key(3), &key(4), 251);
    assert_eq!(s.len(), 4);
    assert_eq!(&s[..3], &a[..]);
    assert_eq!(s[3], vec![251u8]);
}

#[test]
fn keys_compare_by_bytes() {
    let mut b = [1u8; 32];
    assert!(key(1).same(&Key::new(b)));
    b[31] = 2;
    assert!(!key(1).same(&Key::new(b)));
    assert!(!key(1).same(&key(2)));
}

#[test]
fn custody_handle_matches_runtime_derivation() {
    let (h, b) = found_handle(&key(1));
    let got = custody_handle(&program(), &config_key(), &key(1), b).unwrap();
    assert_eq!(got.bytes, h.bytes);
    assert_ne!(got.bytes, config_key().bytes);
    let other = custody_handle(&program(), &config_key(), &key(2), found_handle(&key(2)).1);
    assert_ne!(other.unwrap().bytes, h.bytes);
    assert!(custody_handle(&program(), &config_key(), &key(1), bad_bump(&key(1))).is_none());
}

#[test]
fn stake_with_invalid_bump_fails() {
    let mut s = stake_ctx(config(3, 5, 10), ledger(0, 0), 7);
    assert!(matches!(s.stake(bad_bump(&key(1)), 0), Err(StakeError::InvalidCustody)));
    assert!(s.stake_account.is_none());
    assert_eq!(s.user_account, ledger(0, 0));
}

#[test]
fn unstake_with_invalid_bump_fails() {
    let rec = StakeAccount { owner: key(1), mint: key(7), staked_at: 0, bump: bad_bump(&key(1)) };
    let mut u = Unstake {
        user: key(1),
        program: program(),
        config_key: config_key(),
        config: config(3, 0, 10),
        user_account: ledger(0, 1),
        stake_account: Some(rec),
    };
    assert!(matches!(u.unstake(3 * DAY), Err(StakeError::InvalidCustody)));
    assert!(u.stake_account.is_some());
    assert_eq!(u.user_account, ledger(0, 1));
}

#[test]
fn stake_and_unstake_with_given_handle() {
    let mut s = stake_ctx(config(1, 5, 10), ledger(0, 0), 7);
    let r = s.stake_with_handle(Some(key(5)), 3, 0).unwrap();
    match r {
        LockAction::Freeze { delegate, .. } => assert_eq!(delegate.bytes, [5; 32]),
        _ => panic!("expected a freeze instruction"),
    }
    let mut u = unstake_ctx(&s);
    assert!(matches!(u.unstake_with_handle(Some(key(5)), 4 * DAY), Err(StakeError::FreezePeriodNotPassed)));
    assert!(matches!(u.unstake_with_handle(None, 10 * DAY), Err(StakeError::InvalidCustody)));
    let actions = u.unstake_with_handle(Some(key(5)), 10 * DAY).unwrap();
    match actions[0] {
        LockAction::Thaw { delegate, .. } => assert_eq!(delegate.bytes, [5; 32]),
        _ => panic!("expected a thaw instruction first"),
    }
    assert_eq!(u.user_account, ledger(100, 0));
    let mut t = stake_ctx(config(1, 5, 10), ledger(0, 0), 8);
    assert!(matches!(t.stake_with_handle(None, 3, 0), Err(StakeError::InvalidCustody)));
}
