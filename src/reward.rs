use vstd::prelude::*;
use vstd::arithmetic::div_mod::{
    lemma_div_is_ordered,
    lemma_div_multiples_vanish_fancy,
    lemma_fundamental_div_mod,
    lemma_mod_multiples_vanish,
    lemma_small_mod,
};
use crate::constants::{DAYS_PER_YEAR, REWARD_APR_FACTOR};

verus! {

/// `n / d` rounded up.
pub open spec fn ceil_div(n: nat, d: nat) -> nat
    recommends
        d > 0,
{
    if n % d == 0 {
        n / d
    } else {
        n / d + 1
    }
}

/// Principal plus reward at unlock: `ceil(amount * (1 + APR * duration / 365))`,
/// taken over the exact rationals.
pub open spec fn gross_model(amount: nat, duration: nat) -> nat {
    ceil_div(
        (amount * (DAYS_PER_YEAR + REWARD_APR_FACTOR * duration)) as nat,
        DAYS_PER_YEAR as nat,
    )
}

/// The reward reserved for locking `amount` base units for `duration` days.
pub open spec fn reward_model(amount: nat, duration: nat) -> int {
    gross_model(amount, duration) - amount
}

/// The gross amount is never below the principal, so the reward is never negative.
pub proof fn lemma_reward_nonnegative(amount: nat, duration: nat)
    ensures
        gross_model(amount, duration) >= amount,
        reward_model(amount, duration) >= 0,
{
    let n = amount * (DAYS_PER_YEAR + REWARD_APR_FACTOR * duration);
    assert(n >= amount * 365) by (nonlinear_arith)
        requires
            n == amount * (365 + 3 * duration),
    ;
    assert(n / 365 >= amount) by (nonlinear_arith)
        requires
            n >= amount * 365,
    ;
}

/// Rounding up is monotone in the numerator.
proof fn lemma_ceil_div_monotone(n1: nat, n2: nat, d: nat)
    requires
        n1 <= n2,
        d > 0,
    ensures
        ceil_div(n1, d) <= ceil_div(n2, d),
{
    lemma_div_is_ordered(n1 as int, n2 as int, d as int);
    lemma_fundamental_div_mod(n1 as int, d as int);
    lemma_fundamental_div_mod(n2 as int, d as int);
    if n1 / d == n2 / d && n1 % d != 0 {
        assert(n2 % d != 0);
    }
}

/// Adding whole multiples of `d` to the numerator adds them to the quotient.
proof fn lemma_ceil_div_shift(n: nat, a: nat, d: nat)
    requires
        d > 0,
    ensures
        ceil_div(n + d * a, d) == ceil_div(n, d) + a,
{
    let q = n / d;
    let r = n % d;
    lemma_fundamental_div_mod(n as int, d as int);
    assert(n + d * a == d * (q + a) + r) by (nonlinear_arith)
        requires
            n == d * q + r,
    ;
    lemma_div_multiples_vanish_fancy((q + a) as int, r as int, d as int);
    lemma_mod_multiples_vanish((q + a) as int, r as int, d as int);
    lemma_small_mod(r, d);
    assert((n + d * a) / d == q + a);
    assert((n + d * a) % d == r);
}

/// The reward is `ceil(amount * APR * duration / 365)`.
pub proof fn lemma_reward_closed_form(amount: nat, duration: nat)
    ensures
        reward_model(amount, duration) == ceil_div(
            (amount * REWARD_APR_FACTOR * duration) as nat,
            DAYS_PER_YEAR as nat,
        ),
{
    let n: nat = (amount * REWARD_APR_FACTOR * duration) as nat;
    assert(amount * (365 + 3 * duration) == n + 365 * amount) by (nonlinear_arith)
        requires
            n == amount * 3 * duration,
    ;
    lemma_ceil_div_shift(n, amount, 365);
}

/// For a fixed APR the reward never decreases as the principal or the
/// duration grows.
pub proof fn lemma_reward_monotone(amount1: nat, duration1: nat, amount2: nat, duration2: nat)
    requires
        amount1 <= amount2,
        duration1 <= duration2,
    ensures
        reward_model(amount1, duration1) <= reward_model(amount2, duration2),
{
    lemma_reward_closed_form(amount1, duration1);
    lemma_reward_closed_form(amount2, duration2);
    assert(amount1 * 3 * duration1 <= amount2 * 3 * duration2) by (nonlinear_arith)
        requires
            amount1 <= amount2,
            duration1 <= duration2,
    ;
    lemma_ceil_div_monotone(
        (amount1 * 3 * duration1) as nat,
        (amount2 * 3 * duration2) as nat,
        365,
    );
}

/// The reward for `amount` and `duration`, or `None` where it does not fit in a `u64`.
/// The result is a function of the two arguments alone.
pub fn calculate_rewards(amount: u64, duration: u64) -> (r: Option<u64>)
    ensures
        match r {
            Some(v) => v == reward_model(amount as nat, duration as nat),
            None => reward_model(amount as nat, duration as nat) > u64::MAX,
        },
{
    proof {
        lemma_reward_nonnegative(amount as nat, duration as nat);
    }
    let scale: u128 = (DAYS_PER_YEAR as u128) + (REWARD_APR_FACTOR as u128) * (duration as u128);
    match (amount as u128).checked_mul(scale) {
        None => {
            proof {
                let n: int = amount as int * scale as int;
                assert(n > u128::MAX);
                assert(n / 365 > 2 * (u64::MAX as int)) by (nonlinear_arith)
                    requires
                        n > 0xffff_ffff_ffff_ffff_ffff_ffff_ffff_ffffint,
                ;
            }
            None
        },
        Some(n) => {
            let gross: u128 = if n % 365 == 0 {
                n / 365
            } else {
                n / 365 + 1
            };
            let reward: u128 = gross - amount as u128;
            if reward > u64::MAX as u128 {
                None
            } else {
                Some(reward as u64)
            }
        },
    }
}

} // verus!
