use vstd::prelude::*;
use crate::account::{current_time, StakeAccount};
use crate::errors::ErrorCode;
use crate::key::Key;
use crate::vault::VaultInfo;

verus! {

/// A token holding that an action moves tokens between.
#[derive(Debug, Clone, Copy, PartialEq, Eq)]
pub enum Party {
    /// The owner's own token account, outside the program's custody.
    UserWallet,
    /// The owner's custodial sub-vault that holds the principal.
    UserVault,
    /// The pre-funded vault that pays rewards.
    RewardVault,
}

/// One token movement that settles an action.
#[derive(Debug, Clone, Copy, PartialEq, Eq)]
pub struct Transfer {
    pub from: Party,
    pub to: Party,
    pub amount: u64,
}

/// A request on one owner's record.
#[derive(Debug, Clone, Copy)]
pub enum Action {
    Stake { mint: Key, owner: Key, amount: u64, duration: u64, vault: Key, vault_bump: u8 },
    TopUp { mint: Key, amount: u64 },
    Extend { duration: u64 },
    Restake,
    Unstake,
}

/// What `action` does to the record alone.
pub open spec fn record_outcome(acct: StakeAccount, action: Action, now: i64) -> Result<
    StakeAccount,
    ErrorCode,
> {
    match action {
        Action::Stake { mint, owner, amount, duration, vault, vault_bump } => acct.stake_outcome(
            mint,
            owner,
            amount,
            duration,
            vault,
            vault_bump,
            now,
        ),
        Action::TopUp { mint, amount } => acct.top_up_outcome(mint, amount, now),
        Action::Extend { duration } => acct.extend_outcome(duration, now),
        Action::Restake => acct.restake_outcome(now),
        Action::Unstake => acct.unstake_outcome(now),
    }
}

/// The counters after `action` on the record `acct` (as it was before), or
/// `None` where a counter would leave the range of a `u64`.
pub open spec fn vault_after(info: VaultInfo, acct: StakeAccount, action: Action) -> Option<
    VaultInfo,
> {
    match action {
        Action::Stake { amount, .. } | Action::TopUp { amount, .. } => {
            if info.total_value_locked + amount > u64::MAX || info.lifetime_value_locked + amount
                > u64::MAX {
                None
            } else {
                Some(
                    VaultInfo {
                        total_value_locked: (info.total_value_locked + amount) as u64,
                        lifetime_value_locked: (info.lifetime_value_locked + amount) as u64,
                        ..info
                    },
                )
            }
        },
        Action::Extend { .. } => Some(info),
        Action::Restake => {
            if info.total_value_locked + acct.rewards > u64::MAX {
                None
            } else {
                Some(
                    VaultInfo {
                        total_value_locked: (info.total_value_locked + acct.rewards) as u64,
                        ..info
                    },
                )
            }
        },
        Action::Unstake => {
            if info.total_value_locked < acct.amount {
                None
            } else {
                Some(
                    VaultInfo {
                        total_value_locked: (info.total_value_locked - acct.amount) as u64,
                        ..info
                    },
                )
            }
        },
    }
}

/// The token movements that settle `action` on the record `acct` (as it was before).
pub open spec fn transfers_for(acct: StakeAccount, action: Action) -> Seq<Transfer> {
    match action {
        Action::Stake { amount, .. } | Action::TopUp { amount, .. } => seq![
            Transfer { from: Party::UserWallet, to: Party::UserVault, amount },
        ],
        Action::Extend { .. } => seq![],
        Action::Restake => seq![
            Transfer { from: Party::RewardVault, to: Party::UserVault, amount: acct.rewards },
        ],
        Action::Unstake => seq![
            Transfer { from: Party::UserVault, to: Party::UserWallet, amount: acct.amount },
            Transfer { from: Party::RewardVault, to: Party::UserWallet, amount: acct.rewards },
        ],
    }
}

/// The whole of an action: the new counters, the new record and the
/// transfers that settle it, or the error that refuses it.
pub open spec fn step(info: VaultInfo, acct: StakeAccount, action: Action, now: i64) -> Result<
    (VaultInfo, StakeAccount, Seq<Transfer>),
    ErrorCode,
> {
    match record_outcome(acct, action, now) {
        Err(e) => Err(e),
        Ok(next) => match vault_after(info, acct, action) {
            None => Err(ErrorCode::Overflow),
            Some(counters) => Ok((counters, next, transfers_for(acct, action))),
        },
    }
}

/// How an action ends on the counters and the record, against its `step`.
pub open spec fn dispatched(
    info0: VaultInfo,
    acct0: StakeAccount,
    info1: VaultInfo,
    acct1: StakeAccount,
    r: Result<Vec<Transfer>, ErrorCode>,
    outcome: Result<(VaultInfo, StakeAccount, Seq<Transfer>), ErrorCode>,
) -> bool {
    match outcome {
        Ok((counters, next, transfers)) => r is Ok && r->Ok_0@ == transfers && info1 == counters
            && acct1 == next,
        Err(e) => r is Err && r->Err_0 == e && info1 == info0 && acct1 == acct0,
    }
}

/// Applies `action` at time `now` to one owner's record and the counters,
/// all or nothing, and returns the transfers that settle it.
pub fn dispatch_at(info: &mut VaultInfo, acct: &mut StakeAccount, action: Action, now: i64) -> (r:
    Result<Vec<Transfer>, ErrorCode>)
    ensures
        dispatched(*old(info), *old(acct), *final(info), *final(acct), r, step(*old(info), *old(acct), action, now)),
{
    let before = *acct;
    let mut next = *acct;
    let res = match action {
        Action::Stake { mint, owner, amount, duration, vault, vault_bump } => next.stake_at(
            mint,
            owner,
            amount,
            duration,
            vault,
            vault_bump,
            now,
        ),
        Action::TopUp { mint, amount } => next.top_up_at(mint, amount, now),
        Action::Extend { duration } => next.extend_at(duration, now),
        Action::Restake => next.restake_at(now),
        Action::Unstake => next.unstake_at(now),
    };
    if let Err(e) = res {
        return Err(e);
    }
    let mut transfers: Vec<Transfer> = Vec::new();
    let mut counters = *info;
    match action {
        Action::Stake { amount, .. } | Action::TopUp { amount, .. } => {
            if info.total_value_locked > u64::MAX - amount || info.lifetime_value_locked
                > u64::MAX - amount {
                return Err(ErrorCode::Overflow);
            }
            counters.total_value_locked = info.total_value_locked + amount;
            counters.lifetime_value_locked = info.lifetime_value_locked + amount;
            transfers.push(Transfer { from: Party::UserWallet, to: Party::UserVault, amount });
        },
        Action::Extend { .. } => {},
        Action::Restake => {
            if info.total_value_locked > u64::MAX - before.rewards {
                return Err(ErrorCode::Overflow);
            }
            counters.total_value_locked = info.total_value_locked + before.rewards;
            transfers.push(
                Transfer { from: Party::RewardVault, to: Party::UserVault, amount: before.rewards },
            );
        },
        Action::Unstake => {
            if info.total_value_locked < before.amount {
                return Err(ErrorCode::Overflow);
            }
            counters.total_value_locked = info.total_value_locked - before.amount;
            transfers.push(
                Transfer { from: Party::UserVault, to: Party::UserWallet, amount: before.amount },
            );
            transfers.push(
                Transfer { from: Party::RewardVault, to: Party::UserWallet, amount: before.rewards },
            );
        },
    }
    assert(transfers@ =~= transfers_for(before, action));
    *info = counters;
    *acct = next;
    Ok(transfers)
}

/// Applies `action` at the time the clock gives.
pub fn dispatch(info: &mut VaultInfo, acct: &mut StakeAccount, action: Action) -> (r: Result<
    Vec<Transfer>,
    ErrorCode,
>)
    ensures
        r == Err::<Vec<Transfer>, ErrorCode>(ErrorCode::ClockUnavailable) && *final(info) == *old(info)
            && *final(acct) == *old(acct) || exists|now: i64|
            dispatched(*old(info), *old(acct), *final(info), *final(acct), r, #[trigger] step(*old(info), *old(acct), action, now)),
{
    let ghost info0 = *info;
    let ghost acct0 = *acct;
    let now = match current_time() {
        Ok(t) => t,
        Err(e) => {
            return Err(e);
        },
    };
    let r = dispatch_at(info, acct, action, now);
    assert(dispatched(info0, acct0, *info, *acct, r, step(info0, acct0, action, now)));
    r
}

} // verus!
