use vstd::prelude::*;
use crate::account::{applied, StakeAccount};
use crate::dispatch::{dispatch, dispatched, step, Action, Transfer};
use crate::errors::ErrorCode;
use crate::key::Key;
use crate::vault::VaultInfo;

verus! {

/// Creates the vault counters.
pub struct Init {
    pub vault_info: VaultInfo,
}

impl Init {
    pub fn handler(&mut self) -> (r: Result<(), ErrorCode>)
        ensures
            old(self).vault_info.is_initialized ==> r == Err::<(), ErrorCode>(
                ErrorCode::AlreadyInitialized,
            ) && final(self).vault_info == old(self).vault_info,
            !old(self).vault_info.is_initialized ==> r is Ok && final(self).vault_info == (
            VaultInfo { total_value_locked: 0, lifetime_value_locked: 0, is_initialized: true }),
    {
        self.vault_info.initialize()
    }
}

/// Lengthens a lock.
pub struct Extend {
    pub stake_account: StakeAccount,
}

impl Extend {
    pub fn handler(&mut self, duration: u64) -> (r: Result<(), ErrorCode>)
        ensures
            r == Err::<(), ErrorCode>(ErrorCode::ClockUnavailable) && *final(self) == *old(self)
                || exists|now: i64|
                applied(
                    old(self).stake_account,
                    final(self).stake_account,
                    r,
                    #[trigger] old(self).stake_account.extend_outcome(duration, now),
                ),
    {
        self.stake_account.extend(duration)
    }
}

/// Opens a position for `user`, whose principal goes to `user_vault`.
pub struct Stake {
    pub vault_info: VaultInfo,
    pub stake_account: StakeAccount,
    pub user: Key,
    pub user_vault: Key,
    pub mint: Key,
}

impl Stake {
    pub fn handler(&mut self, amount: u64, duration: u64, vault_bump: u8) -> (r: Result<Vec<Transfer>, ErrorCode>)
        ensures
            r == Err::<Vec<Transfer>, ErrorCode>(ErrorCode::ClockUnavailable) && *final(self)
                == *old(self) || exists|now: i64|
                dispatched(
                    old(self).vault_info,
                    old(self).stake_account,
                    final(self).vault_info,
                    final(self).stake_account,
                    r,
                    #[trigger] step(
                        old(self).vault_info,
                        old(self).stake_account,
                        (Action::Stake {
                            mint: old(self).mint,
                            owner: old(self).user,
                            amount,
                            duration,
                            vault: old(self).user_vault,
                            vault_bump,
                        }),
                        now,
                    ),
                ),
    {
        let action = Action::Stake {
            mint: self.mint,
            owner: self.user,
            amount,
            duration,
            vault: self.user_vault,
            vault_bump,
        };
        dispatch(&mut self.vault_info, &mut self.stake_account, action)
    }
}

/// Adds principal to an open position.
pub struct TopUp {
    pub vault_info: VaultInfo,
    pub stake_account: StakeAccount,
    pub mint: Key,
}

impl TopUp {
    pub fn handler(&mut self, amount: u64) -> (r: Result<Vec<Transfer>, ErrorCode>)
        ensures
            r == Err::<Vec<Transfer>, ErrorCode>(ErrorCode::ClockUnavailable) && *final(self)
                == *old(self) || exists|now: i64|
                dispatched(
                    old(self).vault_info,
                    old(self).stake_account,
                    final(self).vault_info,
                    final(self).stake_account,
                    r,
                    #[trigger] step(
                        old(self).vault_info,
                        old(self).stake_account,
                        (Action::TopUp { mint: old(self).mint, amount }),
                        now,
                    ),
                ),
    {
        let action = Action::TopUp { mint: self.mint, amount };
        dispatch(&mut self.vault_info, &mut self.stake_account, action)
    }
}

/// Rolls an expired position's reward into its principal.
pub struct Restake {
    pub vault_info: VaultInfo,
    pub stake_account: StakeAccount,
}

impl Restake {
    pub fn handler(&mut self) -> (r: Result<Vec<Transfer>, ErrorCode>)
        ensures
            r == Err::<Vec<Transfer>, ErrorCode>(ErrorCode::ClockUnavailable) && *final(self)
                == *old(self) || exists|now: i64|
                dispatched(
                    old(self).vault_info,
                    old(self).stake_account,
                    final(self).vault_info,
                    final(self).stake_account,
                    r,
                    #[trigger] step(old(self).vault_info, old(self).stake_account, Action::Restake, now),
                ),
    {
        let action = Action::Restake;
        dispatch(&mut self.vault_info, &mut self.stake_account, action)
    }
}

/// Closes an expired position and pays out principal and reward.
pub struct Unstake {
    pub vault_info: VaultInfo,
    pub stake_account: StakeAccount,
}

impl Unstake {
    pub fn handler(&mut self) -> (r: Result<Vec<Transfer>, ErrorCode>)
        ensures
            r == Err::<Vec<Transfer>, ErrorCode>(ErrorCode::ClockUnavailable) && *final(self)
                == *old(self) || exists|now: i64|
                dispatched(
                    old(self).vault_info,
                    old(self).stake_account,
                    final(self).vault_info,
                    final(self).stake_account,
                    r,
                    #[trigger] step(old(self).vault_info, old(self).stake_account, Action::Unstake, now),
                ),
    {
        let action = Action::Unstake;
        dispatch(&mut self.vault_info, &mut self.stake_account, action)
    }
}

} // verus!
