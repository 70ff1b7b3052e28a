use vstd::prelude::*;
use crate::account::StakeAccount;
use crate::dispatch::{step, Action};
use crate::reward::{lemma_reward_nonnegative, reward_model};
use crate::vault::VaultInfo;

verus! {

/// What a record adds to the total locked: its principal while active.
pub open spec fn locked_by(acct: StakeAccount) -> int {
    if acct.is_staked {
        acct.amount as int
    } else {
        0
    }
}

/// The principal locked over all `records`: the sum of `amount` over the active ones.
pub open spec fn staked_total(records: Seq<StakeAccount>) -> int
    decreases records.len(),
{
    if records.len() == 0 {
        0
    } else {
        staked_total(records.drop_last()) + locked_by(records.last())
    }
}

/// Replacing one record changes the sum by the difference of the two.
pub proof fn lemma_staked_total_update(records: Seq<StakeAccount>, i: int, acct: StakeAccount)
    requires
        0 <= i < records.len(),
    ensures
        staked_total(records.update(i, acct)) == staked_total(records) - locked_by(records[i])
            + locked_by(acct),
    decreases records.len(),
{
    let updated = records.update(i, acct);
    if i == records.len() - 1 {
        assert(updated.drop_last() =~= records.drop_last());
    } else {
        lemma_staked_total_update(records.drop_last(), i, acct);
        assert(updated.drop_last() =~= records.drop_last().update(i, acct));
    }
}

/// Every action keeps the record invariant: in particular a record that is
/// not staked holds no principal, no reward and no deadline.
pub proof fn lemma_step_keeps_record_invariant(
    info: VaultInfo,
    acct: StakeAccount,
    action: Action,
    now: i64,
)
    requires
        acct.wf(),
    ensures
        step(info, acct, action, now) matches Ok((_, next, _)) ==> next.wf(),
{
}

/// Every action keeps the total locked equal to the principal of the active
/// records: where it held over `records` before an action on `records[i]`,
/// it holds over the records after it.
pub proof fn lemma_step_keeps_total_locked(
    records: Seq<StakeAccount>,
    i: int,
    info: VaultInfo,
    action: Action,
    now: i64,
)
    requires
        0 <= i < records.len(),
        info.total_value_locked == staked_total(records),
    ensures
        step(info, records[i], action, now) matches Ok((counters, next, _))
            ==> counters.total_value_locked == staked_total(records.update(i, next)),
{
    if let Ok((counters, next, _)) = step(info, records[i], action, now) {
        lemma_staked_total_update(records, i, next);
    }
}

/// No action lowers the lifetime value locked.
pub proof fn lemma_step_lifetime_monotone(
    info: VaultInfo,
    acct: StakeAccount,
    action: Action,
    now: i64,
)
    ensures
        step(info, acct, action, now) matches Ok((counters, _, _))
            ==> counters.lifetime_value_locked >= info.lifetime_value_locked,
{
}

/// Counters after each action of a sequence, each on its own record and time,
/// or `None` once one of them fails.
pub open spec fn counters_after_all(
    info: VaultInfo,
    steps: Seq<(StakeAccount, Action, i64)>,
) -> Option<VaultInfo>
    decreases steps.len(),
{
    if steps.len() == 0 {
        Some(info)
    } else {
        match counters_after_all(info, steps.drop_last()) {
            None => None,
            Some(mid) => match step(mid, steps.last().0, steps.last().1, steps.last().2) {
                Ok((counters, _, _)) => Some(counters),
                Err(_) => None,
            },
        }
    }
}

/// Across any sequence of successful actions the lifetime value locked never drops.
pub proof fn lemma_lifetime_monotone_over_sequence(
    info: VaultInfo,
    steps: Seq<(StakeAccount, Action, i64)>,
)
    ensures
        counters_after_all(info, steps) matches Some(last)
            ==> last.lifetime_value_locked >= info.lifetime_value_locked,
    decreases steps.len(),
{
    if steps.len() > 0 {
        lemma_lifetime_monotone_over_sequence(info, steps.drop_last());
        if let Some(mid) = counters_after_all(info, steps.drop_last()) {
            lemma_step_lifetime_monotone(mid, steps.last().0, steps.last().1, steps.last().2);
        }
    }
}

/// Right after a successful `stake`, `extend` or `restake` the reward is the
/// reward model applied to the record's principal and duration.
pub proof fn lemma_rewards_follow_model(
    info: VaultInfo,
    acct: StakeAccount,
    action: Action,
    now: i64,
)
    requires
        action is Stake || action is Extend || action is Restake,
    ensures
        step(info, acct, action, now) matches Ok((_, next, _)) ==> next.rewards == reward_model(
            next.amount as nat,
            next.duration as nat,
        ),
{
    if let Ok((_, next, _)) = step(info, acct, action, now) {
        lemma_reward_nonnegative(next.amount as nat, next.duration as nat);
    }
}

/// A `stake` followed by an `unstake` once the lock has expired leaves the
/// record cleared and the total locked where it started.
pub proof fn lemma_stake_then_unstake(
    info: VaultInfo,
    acct: StakeAccount,
    stake: Action,
    staked_at: i64,
    unstaked_at: i64,
)
    requires
        stake is Stake,
        step(info, acct, stake, staked_at) is Ok,
        unstaked_at >= step(info, acct, stake, staked_at)->Ok_0.1.unlockable_at,
    ensures
        ({
            let (mid, staked, _) = step(info, acct, stake, staked_at)->Ok_0;
            step(mid, staked, Action::Unstake, unstaked_at) matches Ok((last, cleared, _))
                && cleared.is_cleared() && last.total_value_locked == info.total_value_locked
        }),
{
}

} // verus!
