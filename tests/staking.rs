use doug_stake::account::{calculate_unlockable_at, StakeAccount};
use doug_stake::constants::{DURATION_MAX, SECONDS_PER_DAY, STAKE_MINIMUM};
use doug_stake::dispatch::{dispatch_at, Action, Party, Transfer};
use doug_stake::errors::ErrorCode;
use doug_stake::handlers::{Init, Unstake};
use doug_stake::key::Key;
use doug_stake::reward::calculate_rewards;
use doug_stake::vault::VaultInfo;

const YEAR: i64 = 31_536_000;

fn owner() -> Key {
    Key::new([7u8; 32])
}

fn user_vault() -> Key {
    Key::new([9u8; 32])
}

fn fresh() -> (VaultInfo, StakeAccount) {
    let mut info = VaultInfo::new();
    info.initialize().unwrap();
    (info, StakeAccount::new(owner(), user_vault(), 0))
}

fn stake_action(amount: u64, duration: u64) -> Action {
    Action::Stake {
        mint: Key::token_mint(),
        owner: owner(),
        amount,
        duration,
        vault: user_vault(),
        vault_bump: 254,
    }
}

fn is_cleared(a: &StakeAccount) -> bool {
    !a.is_staked && a.amount == 0 && a.rewards == 0 && a.unlockable_at == 0
}

#[test]
fn happy_path_stake_full_year() {
    let (mut info, mut acct) = fresh();
    let t = dispatch_at(&mut info, &mut acct, stake_action(100_000_000, 365), 0).unwrap();
    assert!(acct.is_staked);
    assert_eq!(acct.unlockable_at, 31_536_000);
    assert_eq!(acct.rewards, 300_000_000);
    assert_eq!(acct.amount, 100_000_000);
    assert_eq!(acct.duration, 365);
    assert_eq!(acct.vault_bump, 254);
    assert_eq!(info.total_value_locked, 100_000_000);
    assert_eq!(info.lifetime_value_locked, 100_000_000);
    assert_eq!(t, vec![Transfer { from: Party::UserWallet, to: Party::UserVault, amount: 100_000_000 }]);
}

#[test]
fn minimum_duration_reward() {
    let (mut info, mut acct) = fresh();
    dispatch_at(&mut info, &mut acct, stake_action(100_000_000, 14), 0).unwrap();
    assert_eq!(acct.rewards, 11_506_850);
    assert_eq!(acct.unlockable_at, 14 * 86_400);
}

#[test]
fn early_unstake_is_locked_then_succeeds() {
    let (mut info, mut acct) = fresh();
    dispatch_at(&mut info, &mut acct, stake_action(100_000_000, 365), 0).unwrap();
    let (info0, acct0) = (info, acct);
    assert_eq!(dispatch_at(&mut info, &mut acct, Action::Unstake, 31_535_999), Err(ErrorCode::Locked));
    assert_eq!(acct.rewards, acct0.rewards);
    assert_eq!(info.total_value_locked, info0.total_value_locked);
    let t = dispatch_at(&mut info, &mut acct, Action::Unstake, 31_536_000).unwrap();
    assert!(is_cleared(&acct));
    assert_eq!(info.total_value_locked, 0);
    assert_eq!(info.lifetime_value_locked, 100_000_000);
    assert_eq!(
        t,
        vec![
            Transfer { from: Party::UserVault, to: Party::UserWallet, amount: 100_000_000 },
            Transfer { from: Party::RewardVault, to: Party::UserWallet, amount: 300_000_000 },
        ]
    );
}

#[test]
fn extend_bounds_and_rebase() {
    let (mut info, mut acct) = fresh();
    dispatch_at(&mut info, &mut acct, stake_action(100_000_000, 365), 0).unwrap();
    assert_eq!(dispatch_at(&mut info, &mut acct, Action::Extend { duration: 100 }, 1_000_000), Err(ErrorCode::DurationTooLong));
    assert_eq!(dispatch_at(&mut info, &mut acct, Action::Extend { duration: 0 }, 1_000_000), Err(ErrorCode::DurationTooShort));
    assert_eq!(acct.duration, 365);

    let (mut info, mut acct) = fresh();
    dispatch_at(&mut info, &mut acct, stake_action(100_000_000, 200), 0).unwrap();
    let t = dispatch_at(&mut info, &mut acct, Action::Extend { duration: 50 }, 1_000_000).unwrap();
    assert!(t.is_empty());
    assert_eq!(acct.duration, 250);
    assert_eq!(acct.unlockable_at, 1_000_000 + 250 * 86_400);
    assert_eq!(Some(acct.rewards), calculate_rewards(100_000_000, 250));
    assert_eq!(info.total_value_locked, 100_000_000);
}

#[test]
fn restake_rolls_reward_into_principal() {
    let (mut info, mut acct) = fresh();
    dispatch_at(&mut info, &mut acct, stake_action(100_000_000, 14), 0).unwrap();
    let now = acct.unlockable_at;
    let t = dispatch_at(&mut info, &mut acct, Action::Restake, now).unwrap();
    assert_eq!(acct.amount, 111_506_850);
    assert_eq!(Some(acct.rewards), calculate_rewards(111_506_850, 14));
    assert_eq!(acct.rewards, 12_830_926);
    assert_eq!(acct.unlockable_at, now + 14 * 86_400);
    assert_eq!(info.total_value_locked, 100_000_000 + 11_506_850);
    assert_eq!(info.lifetime_value_locked, 100_000_000);
    assert_eq!(t, vec![Transfer { from: Party::RewardVault, to: Party::UserVault, amount: 11_506_850 }]);
}

#[test]
fn double_stake_rejected() {
    let (mut info, mut acct) = fresh();
    dispatch_at(&mut info, &mut acct, stake_action(100_000_000, 30), 0).unwrap();
    let (info0, acct0) = (info, acct);
    assert_eq!(dispatch_at(&mut info, &mut acct, stake_action(200_000_000, 60), 5), Err(ErrorCode::AlreadyStaked));
    assert_eq!(info.total_value_locked, info0.total_value_locked);
    assert_eq!(info.lifetime_value_locked, info0.lifetime_value_locked);
    assert_eq!(acct.amount, acct0.amount);
    assert_eq!(acct.unlockable_at, acct0.unlockable_at);
}

#[test]
fn stake_then_unstake_returns_to_zero() {
    let (mut info, mut acct) = fresh();
    let tvl0 = info.total_value_locked;
    dispatch_at(&mut info, &mut acct, stake_action(250_000_000, 90), 1_000).unwrap();
    let t = acct.unlockable_at;
    dispatch_at(&mut info, &mut acct, Action::Unstake, t + 5).unwrap();
    assert!(is_cleared(&acct));
    assert_eq!(info.total_value_locked, tvl0);
    assert_eq!(info.lifetime_value_locked, 250_000_000);
}

#[test]
fn total_locked_tracks_active_records() {
    let mut info = VaultInfo::new();
    info.initialize().unwrap();
    let mut a = StakeAccount::new(Key::new([1u8; 32]), Key::new([2u8; 32]), 1);
    let mut b = StakeAccount::new(Key::new([3u8; 32]), Key::new([4u8; 32]), 1);
    dispatch_at(&mut info, &mut a, stake_action(100_000_000, 14), 0).unwrap();
    dispatch_at(&mut info, &mut b, stake_action(300_000_000, 30), 10).unwrap();
    dispatch_at(&mut info, &mut b, Action::TopUp { mint: Key::token_mint(), amount: 100_000_000 }, 20).unwrap();
    assert_eq!(info.total_value_locked, a.amount + b.amount);
    let t = a.unlockable_at;
    dispatch_at(&mut info, &mut a, Action::Restake, t).unwrap();
    assert_eq!(info.total_value_locked, a.amount + b.amount);
    let t = a.unlockable_at;
    dispatch_at(&mut info, &mut a, Action::Unstake, t).unwrap();
    assert_eq!(info.total_value_locked, b.amount);
    assert_eq!(info.lifetime_value_locked, 500_000_000);
}

#[test]
fn lifetime_never_drops() {
    let (mut info, mut acct) = fresh();
    let mut last = info.lifetime_value_locked;
    let steps = [
        (stake_action(100_000_000, 14), 0i64),
        (Action::Extend { duration: 10 }, 100),
        (Action::Unstake, 100),
        (Action::TopUp { mint: Key::token_mint(), amount: 100_000_000 }, 200),
        (Action::Restake, 24 * 86_400 + 100),
        (Action::Unstake, 48 * 86_400 + 100),
    ];
    for (action, now) in steps {
        let _ = dispatch_at(&mut info, &mut acct, action, now);
        assert!(info.lifetime_value_locked >= last);
        last = info.lifetime_value_locked;
    }
    assert!(is_cleared(&acct));
}

#[test]
fn inactive_records_hold_nothing() {
    let (mut info, mut acct) = fresh();
    assert!(is_cleared(&acct));
    assert_eq!(dispatch_at(&mut info, &mut acct, Action::Restake, 0), Err(ErrorCode::NotStaked));
    assert_eq!(dispatch_at(&mut info, &mut acct, Action::Unstake, 0), Err(ErrorCode::NotStaked));
    assert_eq!(dispatch_at(&mut info, &mut acct, Action::Extend { duration: 5 }, 0), Err(ErrorCode::NotStaked));
    assert_eq!(
        dispatch_at(&mut info, &mut acct, Action::TopUp { mint: Key::token_mint(), amount: STAKE_MINIMUM }, 0),
        Err(ErrorCode::NotStaked)
    );
    assert!(is_cleared(&acct));
}

#[test]
fn reward_is_deterministic_and_exact() {
    assert_eq!(calculate_rewards(100_000_000, 365), Some(300_000_000));
    assert_eq!(calculate_rewards(100_000_000, 14), Some(11_506_850));
    assert_eq!(calculate_rewards(100_000_000, 14), calculate_rewards(100_000_000, 14));
    assert_eq!(calculate_rewards(0, 365), Some(0));
    assert_eq!(calculate_rewards(100_000_000, 0), Some(0));
    assert_eq!(calculate_rewards(u64::MAX, 365), None);
    assert_eq!(calculate_rewards(u64::MAX / 4, 365), Some((u64::MAX / 4) * 3));
    assert_eq!(calculate_rewards(u64::MAX, u64::MAX), None);
}

#[test]
fn reward_matches_binary64_where_multiplier_is_exact() {
    for amount in [100_000_000u64, 123_456_789, 1_000_000_000_000] {
        let multiplier = ((86_400.0 * 365.0) / (86_400.0 * 365.0)) * 3.0 + 1.0;
        let gross = ((amount as f64) * multiplier).ceil() as u64;
        assert_eq!(calculate_rewards(amount, 365), Some(gross - amount));
    }
    for duration in 14u64..=365 {
        let multiplier = ((86_400.0 * duration as f64) / (86_400.0 * 365.0)) * 3.0 + 1.0;
        let gross = ((100_000_000u64 as f64) * multiplier).ceil() as u64;
        let exact = calculate_rewards(100_000_000, duration).unwrap();
        assert!(exact + 1 >= gross - 100_000_000 && exact <= gross - 100_000_000);
    }
}

#[test]
fn reward_is_monotone() {
    let mut prev = 0u64;
    for d in 14u64..=365 {
        let r = calculate_rewards(150_000_000, d).unwrap();
        assert!(r >= prev);
        assert!(calculate_rewards(150_000_001, d).unwrap() >= r);
        prev = r;
    }
}

#[test]
fn stake_error_order() {
    let (mut info, mut acct) = fresh();
    let bad_mint = Action::Stake {
        mint: Key::new([0u8; 32]),
        owner: owner(),
        amount: 100_000_000,
        duration: 30,
        vault: user_vault(),
        vault_bump: 1,
    };
    assert_eq!(dispatch_at(&mut info, &mut acct, bad_mint, 0), Err(ErrorCode::InvalidMint));
    assert_eq!(dispatch_at(&mut info, &mut acct, stake_action(STAKE_MINIMUM - 1, 30), 0), Err(ErrorCode::AmountNotEnough));
    assert_eq!(dispatch_at(&mut info, &mut acct, stake_action(STAKE_MINIMUM, 13), 0), Err(ErrorCode::DurationTooShort));
    assert_eq!(dispatch_at(&mut info, &mut acct, stake_action(STAKE_MINIMUM, DURATION_MAX + 1), 0), Err(ErrorCode::DurationTooShort));
    assert_eq!(dispatch_at(&mut info, &mut acct, stake_action(STAKE_MINIMUM, 30), i64::MAX - 10), Err(ErrorCode::Overflow));
    assert!(is_cleared(&acct));
    assert_eq!(info.total_value_locked, 0);
    assert!(dispatch_at(&mut info, &mut acct, stake_action(STAKE_MINIMUM, 14), 0).is_ok());
}

#[test]
fn top_up_keeps_deadline_and_uses_remaining_days() {
    let (mut info, mut acct) = fresh();
    dispatch_at(&mut info, &mut acct, stake_action(100_000_000, 100), 0).unwrap();
    let deadline = acct.unlockable_at;
    let now = 40 * 86_400 + 5;
    let t = dispatch_at(&mut info, &mut acct, Action::TopUp { mint: Key::token_mint(), amount: 200_000_000 }, now).unwrap();
    assert_eq!(acct.unlockable_at, deadline);
    assert_eq!(acct.amount, 300_000_000);
    assert_eq!(acct.duration, 100);
    assert_eq!(Some(acct.rewards), calculate_rewards(300_000_000, 59));
    assert_eq!(info.total_value_locked, 300_000_000);
    assert_eq!(info.lifetime_value_locked, 300_000_000);
    assert_eq!(t, vec![Transfer { from: Party::UserWallet, to: Party::UserVault, amount: 200_000_000 }]);
    let top = Action::TopUp { mint: Key::token_mint(), amount: STAKE_MINIMUM - 1 };
    assert_eq!(dispatch_at(&mut info, &mut acct, top, now), Err(ErrorCode::AmountNotEnough));
    let top = Action::TopUp { mint: Key::new([5u8; 32]), amount: STAKE_MINIMUM };
    assert_eq!(dispatch_at(&mut info, &mut acct, top, now), Err(ErrorCode::InvalidMint));
    let top = Action::TopUp { mint: Key::token_mint(), amount: STAKE_MINIMUM };
    assert_eq!(dispatch_at(&mut info, &mut acct, top, deadline + 1), Err(ErrorCode::AlreadyUnlockable));
}

#[test]
fn boundary_at_deadline() {
    let (mut info, mut acct) = fresh();
    dispatch_at(&mut info, &mut acct, stake_action(100_000_000, 20), 0).unwrap();
    let deadline = acct.unlockable_at;
    let mut copy_info = info;
    let mut copy = acct;
    assert!(dispatch_at(&mut copy_info, &mut copy, Action::Extend { duration: 1 }, deadline).is_ok());
    assert_eq!(dispatch_at(&mut info, &mut acct, Action::Extend { duration: 1 }, deadline + 1), Err(ErrorCode::AlreadyUnlockable));
    assert_eq!(dispatch_at(&mut info, &mut acct, Action::Restake, deadline - 1), Err(ErrorCode::Locked));
    assert!(dispatch_at(&mut info, &mut acct, Action::Restake, deadline).is_ok());
}

#[test]
fn overflowing_counters_are_refused() {
    let (mut info, mut acct) = fresh();
    info.total_value_locked = u64::MAX - 10;
    info.lifetime_value_locked = u64::MAX - 10;
    assert_eq!(dispatch_at(&mut info, &mut acct, stake_action(STAKE_MINIMUM, 14), 0), Err(ErrorCode::Overflow));
    assert!(is_cleared(&acct));
    assert_eq!(calculate_unlockable_at(i64::MAX, 1), None);
    assert_eq!(calculate_unlockable_at(0, 2), Some(2 * SECONDS_PER_DAY as i64));
    assert_eq!(YEAR, 365 * SECONDS_PER_DAY as i64);
}

#[test]
fn initialize_only_once() {
    let mut init = Init { vault_info: VaultInfo::new() };
    assert!(init.handler().is_ok());
    assert!(init.vault_info.is_initialized);
    assert_eq!(init.handler(), Err(ErrorCode::AlreadyInitialized));
}

#[test]
fn clock_reading_actions_off_chain() {
    let mut acct = StakeAccount::new(owner(), user_vault(), 0);
    assert_eq!(
        acct.stake(Key::token_mint(), owner(), 100_000_000, 30, user_vault(), 1),
        Err(ErrorCode::ClockUnavailable)
    );
    assert!(is_cleared(&acct));
    let (info, acct) = fresh();
    let mut unstake = Unstake { vault_info: info, stake_account: acct };
    assert_eq!(unstake.handler(), Err(ErrorCode::ClockUnavailable));
}

#[test]
fn keys_compare_by_bytes() {
    assert_eq!(Key::new([7u8; 32]), owner());
    assert_ne!(Key::new([8u8; 32]), owner());
    assert_eq!(Key::token_mint().to_bytes()[0], 190);
    assert_eq!(ErrorCode::Locked.message(), "This stake is still locked.");
}
