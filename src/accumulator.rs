use vstd::prelude::*;

verus! {

/// Scale of the per-share accumulator.
pub const PRECISION: u128 = 1_000_000_000_000;

/// Reward credited to each staked unit by a deposit of `amount` spread over
/// `total_staked` units, scaled by `PRECISION`.
pub open spec fn reward_per_share(amount: nat, total_staked: nat) -> nat {
    if total_staked == 0 {
        0
    } else {
        (amount * PRECISION as nat) / total_staked
    }
}

/// What `staked` units have earned in total at accumulator value `acc`.
pub open spec fn gross_reward(staked: nat, acc: nat) -> nat {
    (staked * acc) / PRECISION as nat
}

/// Reward earned since the accumulator value that `debt` prices in, never
/// below zero.
pub open spec fn pending_reward(staked: nat, acc: nat, debt: nat) -> nat {
    if gross_reward(staked, acc) >= debt {
        (gross_reward(staked, acc) - debt) as nat
    } else {
        0
    }
}

/// Whether `staked * acc` fits in 128 bits.
pub open spec fn product_fits(staked: nat, acc: nat) -> bool {
    staked * acc <= u128::MAX
}

/// Accumulator increment for a deposit of `amount` over `total_staked` units.
pub fn calculate_reward_per_share(amount: u64, total_staked: u64) -> (r: u128)
    ensures
        r == reward_per_share(amount as nat, total_staked as nat),
{
    if total_staked == 0 {
        0
    } else {
        assert((amount as nat) * (PRECISION as nat) <= u128::MAX) by (nonlinear_arith)
            requires amount <= u64::MAX;
        let scaled: u128 = (amount as u128) * PRECISION;
        scaled / (total_staked as u128)
    }
}

/// Claimable delta of a position: `floor(staked * acc / PRECISION) - debt`,
/// clamped at zero.
pub fn calculate_pending_rewards(user_staked: u64, accumulated_per_share: u128, reward_debt: u128) -> (r: u128)
    requires
        product_fits(user_staked as nat, accumulated_per_share as nat),
    ensures
        r == pending_reward(user_staked as nat, accumulated_per_share as nat, reward_debt as nat),
{
    let accumulated = calculate_reward_debt(user_staked, accumulated_per_share);
    accumulated.saturating_sub(reward_debt)
}

/// Accumulator value priced into a position of `user_staked` units:
/// `floor(staked * acc / PRECISION)`.
pub fn calculate_reward_debt(user_staked: u64, accumulated_per_share: u128) -> (r: u128)
    requires
        product_fits(user_staked as nat, accumulated_per_share as nat),
    ensures
        r == gross_reward(user_staked as nat, accumulated_per_share as nat),
{
    let product: u128 = (user_staked as u128) * accumulated_per_share;
    product / PRECISION
}

} // verus!
