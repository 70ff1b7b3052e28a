use vstd::prelude::*;
use crate::clock::clock_unix_timestamp;
use crate::constants::{DURATION_MAX, DURATION_MIN, SECONDS_PER_DAY, STAKE_MINIMUM};
use crate::errors::ErrorCode;
use crate::key::{token_mint, Key};
use crate::reward::{calculate_rewards, reward_model};

verus! {

/// One owner's stake position.
#[derive(Debug, Clone, Copy)]
pub struct StakeAccount {
    pub owner: Key,
    pub amount: u64,
    pub rewards: u64,
    pub duration: u64,
    pub vault: Key,
    pub vault_bump: u8,
    pub unlockable_at: i64,
    pub is_staked: bool,
}

/// The lock deadline for a lock of `duration` days that starts at `now`.
pub open spec fn unlock_time(now: i64, duration: nat) -> int {
    now + SECONDS_PER_DAY * duration
}

/// Whole days left between `now` and `unlockable_at`.
pub open spec fn days_remaining(unlockable_at: i64, now: i64) -> int {
    (unlockable_at - now) / (SECONDS_PER_DAY as int)
}

/// The deadline for a lock of `duration` days from `now`, or `None` where it
/// does not fit in an `i64`.
pub fn calculate_unlockable_at(now: i64, duration: u64) -> (r: Option<i64>)
    ensures
        match r {
            Some(t) => t == unlock_time(now, duration as nat),
            None => unlock_time(now, duration as nat) > i64::MAX,
        },
{
    let t: i128 = now as i128 + (SECONDS_PER_DAY as i128) * (duration as i128);
    if t > i64::MAX as i128 {
        None
    } else {
        Some(t as i64)
    }
}

/// How an action ends on a record: `after` is the record it leaves, `r` what it returns.
pub open spec fn applied(
    before: StakeAccount,
    after: StakeAccount,
    r: Result<(), ErrorCode>,
    outcome: Result<StakeAccount, ErrorCode>,
) -> bool {
    match outcome {
        Ok(s) => r is Ok && after == s,
        Err(e) => r == Err::<(), ErrorCode>(e) && after == before,
    }
}

/// The current time in seconds, or `ClockUnavailable`.
pub fn current_time() -> (r: Result<i64, ErrorCode>)
    ensures
        r is Err ==> r == Err::<i64, ErrorCode>(ErrorCode::ClockUnavailable),
{
    match clock_unix_timestamp() {
        Ok(now) => Ok(now),
        Err(_) => Err(ErrorCode::ClockUnavailable),
    }
}

impl StakeAccount {
    /// A record that has never been staked.
    pub fn new(owner: Key, vault: Key, vault_bump: u8) -> (s: StakeAccount)
        ensures
            s.owner == owner,
            s.vault == vault,
            s.vault_bump == vault_bump,
            s.amount == 0,
            s.rewards == 0,
            s.duration == 0,
            s.unlockable_at == 0,
            !s.is_staked,
    {
        StakeAccount {
            owner,
            amount: 0,
            rewards: 0,
            duration: 0,
            vault,
            vault_bump,
            unlockable_at: 0,
            is_staked: false,
        }
    }

    /// The record invariant: an inactive record holds nothing; an active one
    /// holds at least the minimum, for a duration within bounds.
    pub open spec fn wf(self) -> bool {
        &&& !self.is_staked ==> self.amount == 0 && self.rewards == 0 && self.unlockable_at == 0
        &&& self.is_staked ==> self.amount >= STAKE_MINIMUM && DURATION_MIN <= self.duration
            <= DURATION_MAX
    }

    /// The record is inactive and zeroed.
    pub open spec fn is_cleared(self) -> bool {
        !self.is_staked && self.amount == 0 && self.rewards == 0 && self.unlockable_at == 0
    }

    /// `stake`: checks, in order, the mint, that the record is inactive, the
    /// minimum amount, and the duration bounds. A duration above the maximum is
    /// reported as `DurationTooShort`, as this program always has; it is still
    /// refused.
    pub open spec fn stake_outcome(
        self,
        mint: Key,
        owner: Key,
        amount: u64,
        duration: u64,
        vault: Key,
        vault_bump: u8,
        now: i64,
    ) -> Result<StakeAccount, ErrorCode> {
        if mint@ != token_mint()@ {
            Err(ErrorCode::InvalidMint)
        } else if self.is_staked {
            Err(ErrorCode::AlreadyStaked)
        } else if amount < STAKE_MINIMUM {
            Err(ErrorCode::AmountNotEnough)
        } else if duration < DURATION_MIN || duration > DURATION_MAX {
            Err(ErrorCode::DurationTooShort)
        } else if reward_model(amount as nat, duration as nat) > u64::MAX || unlock_time(
            now,
            duration as nat,
        ) > i64::MAX {
            Err(ErrorCode::Overflow)
        } else {
            Ok(
                StakeAccount {
                    owner,
                    amount,
                    rewards: reward_model(amount as nat, duration as nat) as u64,
                    duration,
                    vault,
                    vault_bump,
                    unlockable_at: unlock_time(now, duration as nat) as i64,
                    is_staked: true,
                },
            )
        }
    }

    /// `top_up`: the deadline is kept; the reward is recomputed for the new
    /// principal over the whole days left until it.
    pub open spec fn top_up_outcome(self, mint: Key, amount: u64, now: i64) -> Result<
        StakeAccount,
        ErrorCode,
    > {
        let total = self.amount + amount;
        let days = days_remaining(self.unlockable_at, now);
        if mint@ != token_mint()@ {
            Err(ErrorCode::InvalidMint)
        } else if !self.is_staked {
            Err(ErrorCode::NotStaked)
        } else if self.unlockable_at < now {
            Err(ErrorCode::AlreadyUnlockable)
        } else if amount < STAKE_MINIMUM {
            Err(ErrorCode::AmountNotEnough)
        } else if total > u64::MAX || reward_model(total as nat, days as nat) > u64::MAX {
            Err(ErrorCode::Overflow)
        } else {
            Ok(
                StakeAccount {
                    amount: total as u64,
                    rewards: reward_model(total as nat, days as nat) as u64,
                    ..self
                },
            )
        }
    }

    /// `unstake`: once the deadline has passed (or is now), the record is
    /// cleared; owner, vault and duration are left as they were.
    pub open spec fn unstake_outcome(self, now: i64) -> Result<StakeAccount, ErrorCode> {
        if !self.is_staked {
            Err(ErrorCode::NotStaked)
        } else if self.unlockable_at > now {
            Err(ErrorCode::Locked)
        } else {
            Ok(StakeAccount { amount: 0, rewards: 0, unlockable_at: 0, is_staked: false, ..self })
        }
    }

    /// `restake`: once the deadline has passed (or is now), the reward joins
    /// the principal and a lock of the same duration starts at `now`.
    pub open spec fn restake_outcome(self, now: i64) -> Result<StakeAccount, ErrorCode> {
        let total = self.amount + self.rewards;
        if !self.is_staked {
            Err(ErrorCode::NotStaked)
        } else if self.unlockable_at > now {
            Err(ErrorCode::Locked)
        } else if total > u64::MAX || reward_model(total as nat, self.duration as nat) > u64::MAX
            || unlock_time(now, self.duration as nat) > i64::MAX {
            Err(ErrorCode::Overflow)
        } else {
            Ok(
                StakeAccount {
                    amount: total as u64,
                    rewards: reward_model(total as nat, self.duration as nat) as u64,
                    unlockable_at: unlock_time(now, self.duration as nat) as i64,
                    ..self
                },
            )
        }
    }

    /// `extend`: while the deadline has not passed, the duration grows and
    /// the whole new duration counts from `now`.
    pub open spec fn extend_outcome(self, duration: u64, now: i64) -> Result<
        StakeAccount,
        ErrorCode,
    > {
        let total = self.duration + duration;
        if !self.is_staked {
            Err(ErrorCode::NotStaked)
        } else if duration == 0 {
            Err(ErrorCode::DurationTooShort)
        } else if self.unlockable_at < now {
            Err(ErrorCode::AlreadyUnlockable)
        } else if total > DURATION_MAX {
            Err(ErrorCode::DurationTooLong)
        } else if reward_model(self.amount as nat, total as nat) > u64::MAX || unlock_time(
            now,
            total as nat,
        ) > i64::MAX {
            Err(ErrorCode::Overflow)
        } else {
            Ok(
                StakeAccount {
                    duration: total as u64,
                    rewards: reward_model(self.amount as nat, total as nat) as u64,
                    unlockable_at: unlock_time(now, total as nat) as i64,
                    ..self
                },
            )
        }
    }

    /// Opens a position at time `now`.
    pub fn stake_at(
        &mut self,
        mint: Key,
        owner: Key,
        amount: u64,
        duration: u64,
        vault: Key,
        vault_bump: u8,
        now: i64,
    ) -> (r: Result<(), ErrorCode>)
        ensures
            applied(
                *old(self),
                *final(self),
                r,
                old(self).stake_outcome(mint, owner, amount, duration, vault, vault_bump, now),
            ),
    {
        if mint != Key::token_mint() {
            return Err(ErrorCode::InvalidMint);
        }
        if self.is_staked {
            return Err(ErrorCode::AlreadyStaked);
        }
        if amount < STAKE_MINIMUM {
            return Err(ErrorCode::AmountNotEnough);
        }
        if duration < DURATION_MIN || duration > DURATION_MAX {
            return Err(ErrorCode::DurationTooShort);
        }
        let rewards = match calculate_rewards(amount, duration) {
            Some(v) => v,
            None => {
                return Err(ErrorCode::Overflow);
            },
        };
        let unlockable_at = match calculate_unlockable_at(now, duration) {
            Some(t) => t,
            None => {
                return Err(ErrorCode::Overflow);
            },
        };
        self.owner = owner;
        self.amount = amount;
        self.rewards = rewards;
        self.vault = vault;
        self.vault_bump = vault_bump;
        self.duration = duration;
        self.unlockable_at = unlockable_at;
        self.is_staked = true;
        Ok(())
    }

    /// Adds principal to an active position at time `now`; the deadline stays,
    /// and the reward is recomputed over the whole days that remain.
    pub fn top_up_at(&mut self, mint: Key, amount: u64, now: i64) -> (r: Result<(), ErrorCode>)
        ensures
            applied(*old(self), *final(self), r, old(self).top_up_outcome(mint, amount, now)),
    {
        if mint != Key::token_mint() {
            return Err(ErrorCode::InvalidMint);
        }
        if !self.is_staked {
            return Err(ErrorCode::NotStaked);
        }
        if self.unlockable_at < now {
            return Err(ErrorCode::AlreadyUnlockable);
        }
        if amount < STAKE_MINIMUM {
            return Err(ErrorCode::AmountNotEnough);
        }
        let total = match self.amount.checked_add(amount) {
            Some(v) => v,
            None => {
                return Err(ErrorCode::Overflow);
            },
        };
        let remaining: i128 = self.unlockable_at as i128 - now as i128;
        let days: i128 = remaining / (SECONDS_PER_DAY as i128);
        assert(days == days_remaining(self.unlockable_at, now));
        let rewards = match calculate_rewards(total, days as u64) {
            Some(v) => v,
            None => {
                return Err(ErrorCode::Overflow);
            },
        };
        self.amount = total;
        self.rewards = rewards;
        Ok(())
    }

    /// Closes a position whose lock has expired at time `now`.
    pub fn unstake_at(&mut self, now: i64) -> (r: Result<(), ErrorCode>)
        ensures
            applied(*old(self), *final(self), r, old(self).unstake_outcome(now)),
    {
        if !self.is_staked {
            return Err(ErrorCode::NotStaked);
        }
        if self.unlockable_at > now {
            return Err(ErrorCode::Locked);
        }
        self.amount = 0;
        self.unlockable_at = 0;
        self.rewards = 0;
        self.is_staked = false;
        Ok(())
    }

    /// Rolls the reward of an expired lock into the principal and locks again
    /// for the same duration from `now`.
    pub fn restake_at(&mut self, now: i64) -> (r: Result<(), ErrorCode>)
        ensures
            applied(*old(self), *final(self), r, old(self).restake_outcome(now)),
    {
        if !self.is_staked {
            return Err(ErrorCode::NotStaked);
        }
        if self.unlockable_at > now {
            return Err(ErrorCode::Locked);
        }
        let total = match self.amount.checked_add(self.rewards) {
            Some(v) => v,
            None => {
                return Err(ErrorCode::Overflow);
            },
        };
        let rewards = match calculate_rewards(total, self.duration) {
            Some(v) => v,
            None => {
                return Err(ErrorCode::Overflow);
            },
        };
        let unlockable_at = match calculate_unlockable_at(now, self.duration) {
            Some(t) => t,
            None => {
                return Err(ErrorCode::Overflow);
            },
        };
        self.amount = total;
        self.rewards = rewards;
        self.unlockable_at = unlockable_at;
        Ok(())
    }

    /// Lengthens an unexpired lock by `duration` days; the new deadline counts
    /// the whole new duration from `now`.
    pub fn extend_at(&mut self, duration: u64, now: i64) -> (r: Result<(), ErrorCode>)
        ensures
            applied(*old(self), *final(self), r, old(self).extend_outcome(duration, now)),
    {
        if !self.is_staked {
            return Err(ErrorCode::NotStaked);
        }
        if duration == 0 {
            return Err(ErrorCode::DurationTooShort);
        }
        if self.unlockable_at < now {
            return Err(ErrorCode::AlreadyUnlockable);
        }
        if duration > DURATION_MAX || self.duration > DURATION_MAX - duration {
            return Err(ErrorCode::DurationTooLong);
        }
        let total: u64 = self.duration + duration;
        let rewards = match calculate_rewards(self.amount, total) {
            Some(v) => v,
            None => {
                return Err(ErrorCode::Overflow);
            },
        };
        let unlockable_at = match calculate_unlockable_at(now, total) {
            Some(t) => t,
            None => {
                return Err(ErrorCode::Overflow);
            },
        };
        self.duration = total;
        self.unlockable_at = unlockable_at;
        self.rewards = rewards;
        Ok(())
    }

    /// Opens a position at the time the clock gives.
    pub fn stake(
        &mut self,
        mint: Key,
        owner: Key,
        amount: u64,
        duration: u64,
        vault: Key,
        vault_bump: u8,
    ) -> (r: Result<(), ErrorCode>)
        ensures
            r == Err::<(), ErrorCode>(ErrorCode::ClockUnavailable) && *final(self) == *old(self)
                || exists|now: i64|
                applied(*old(self), *final(self), r, #[trigger] old(self).stake_outcome(mint, owner, amount, duration, vault, vault_bump, now)),
    {
        let ghost before = *self;
        let now = match current_time() {
            Ok(t) => t,
            Err(e) => {
                return Err(e);
            },
        };
        let r = self.stake_at(mint, owner, amount, duration, vault, vault_bump, now);
        assert(applied(before, *self, r, before.stake_outcome(mint, owner, amount, duration, vault, vault_bump, now)));
        r
    }

    /// Adds principal to an active position at the time the clock gives.
    pub fn top_up(&mut self, mint: Key, amount: u64) -> (r: Result<(), ErrorCode>)
        ensures
            r == Err::<(), ErrorCode>(ErrorCode::ClockUnavailable) && *final(self) == *old(self)
                || exists|now: i64|
                applied(*old(self), *final(self), r, #[trigger] old(self).top_up_outcome(mint, amount, now)),
    {
        let ghost before = *self;
        let now = match current_time() {
            Ok(t) => t,
            Err(e) => {
                return Err(e);
            },
        };
        let r = self.top_up_at(mint, amount, now);
        assert(applied(before, *self, r, before.top_up_outcome(mint, amount, now)));
        r
    }

    /// Closes an expired position at the time the clock gives.
    pub fn unstake(&mut self) -> (r: Result<(), ErrorCode>)
        ensures
            r == Err::<(), ErrorCode>(ErrorCode::ClockUnavailable) && *final(self) == *old(self)
                || exists|now: i64|
                applied(*old(self), *final(self), r, #[trigger] old(self).unstake_outcome(now)),
    {
        let ghost before = *self;
        let now = match current_time() {
            Ok(t) => t,
            Err(e) => {
                return Err(e);
            },
        };
        let r = self.unstake_at(now);
        assert(applied(before, *self, r, before.unstake_outcome(now)));
        r
    }

    /// Rolls the reward into the principal at the time the clock gives.
    pub fn restake(&mut self) -> (r: Result<(), ErrorCode>)
        ensures
            r == Err::<(), ErrorCode>(ErrorCode::ClockUnavailable) && *final(self) == *old(self)
                || exists|now: i64|
                applied(*old(self), *final(self), r, #[trigger] old(self).restake_outcome(now)),
    {
        let ghost before = *self;
        let now = match current_time() {
            Ok(t) => t,
            Err(e) => {
                return Err(e);
            },
        };
        let r = self.restake_at(now);
        assert(applied(before, *self, r, before.restake_outcome(now)));
        r
    }

    /// Lengthens the lock at the time the clock gives.
    pub fn extend(&mut self, duration: u64) -> (r: Result<(), ErrorCode>)
        ensures
            r == Err::<(), ErrorCode>(ErrorCode::ClockUnavailable) && *final(self) == *old(self)
                || exists|now: i64|
                applied(*old(self), *final(self), r, #[trigger] old(self).extend_outcome(duration, now)),
    {
        let ghost before = *self;
        let now = match current_time() {
            Ok(t) => t,
            Err(e) => {
                return Err(e);
            },
        };
        let r = self.extend_at(duration, now);
        assert(applied(before, *self, r, before.extend_outcome(duration, now)));
        r
    }
}

} // verus!
