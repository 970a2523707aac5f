use vstd::prelude::*;
use crate::accumulator::{
    calculate_pending_rewards, calculate_reward_debt, calculate_reward_per_share, gross_reward,
    pending_reward, product_fits, reward_per_share,
};
use crate::pubkey::Pubkey;
use crate::state::{Custody, KernelConfig, KernelError, TokenMovement, UserStake};

verus! {

/// Reward a position has earned since its last update, at the pool's current
/// accumulator value.
pub open spec fn accrued(c: KernelConfig, u: UserStake) -> nat {
    pending_reward(u.staked_amount as nat, c.accumulated_per_share as nat, u.reward_debt as nat)
}

/// Banked plus freshly accrued reward of a position.
pub open spec fn claimable(c: KernelConfig, u: UserStake) -> nat {
    u.pending_rewards as nat + accrued(c, u)
}

/// Whether the accrued reward of a position can be computed and banked
/// within the integer ranges of the records.
pub open spec fn can_bank(c: KernelConfig, u: UserStake) -> bool {
    product_fits(u.staked_amount as nat, c.accumulated_per_share as nat)
        && claimable(c, u) <= u64::MAX
}

/// Position after banking its accrued reward and changing its stake to
/// `new_staked`; the reward debt is priced at the current accumulator.
pub open spec fn rebanked(c: KernelConfig, u: UserStake, new_staked: nat) -> UserStake {
    UserStake {
        staked_amount: new_staked as u64,
        pending_rewards: claimable(c, u) as u64,
        reward_debt: gross_reward(new_staked, c.accumulated_per_share as nat) as u128,
        ..u
    }
}

// ---- stake ----

/// First check that refuses a stake of `amount` by `owner`, if any.
pub open spec fn stake_error(c: KernelConfig, u: UserStake, owner: Pubkey, amount: u64) -> Option<KernelError> {
    if u.owner@ != owner@ {
        Some(KernelError::NotOwner)
    } else if amount == 0 {
        Some(KernelError::ZeroAmount)
    } else if c.is_paused {
        Some(KernelError::ProgramPaused)
    } else if !can_bank(c, u) || u.staked_amount + amount > u64::MAX || c.total_staked + amount
        > u64::MAX || !product_fits(
        (u.staked_amount + amount) as nat,
        c.accumulated_per_share as nat,
    ) {
        Some(KernelError::MathOverflow)
    } else {
        None
    }
}

/// Position after an accepted stake of `amount` at time `now`.
pub open spec fn staked_position(c: KernelConfig, u: UserStake, amount: u64, now: i64) -> UserStake {
    UserStake { stake_time: now, ..rebanked(c, u, (u.staked_amount + amount) as nat) }
}

/// Pool after an accepted stake of `amount`.
pub open spec fn staked_config(c: KernelConfig, amount: u64) -> KernelConfig {
    KernelConfig { total_staked: (c.total_staked + amount) as u64, ..c }
}

/// Banks the accrued reward of `user_stake`, or `None` where that leaves the
/// integer ranges.
fn bank_rewards(config: &KernelConfig, user_stake: &UserStake) -> (r: Option<u64>)
    ensures
        r matches Some(p) ==> can_bank(*config, *user_stake) && p == claimable(
            *config,
            *user_stake,
        ),
        r is None ==> !can_bank(*config, *user_stake),
{
    let acc = config.accumulated_per_share;
    if (user_stake.staked_amount as u128).checked_mul(acc).is_none() {
        return None;
    }
    let delta = calculate_pending_rewards(user_stake.staked_amount, acc, user_stake.reward_debt);
    if delta > (u64::MAX - user_stake.pending_rewards) as u128 {
        None
    } else {
        Some(user_stake.pending_rewards + delta as u64)
    }
}

/// Reward debt of a position of `staked` units, or `None` where the product
/// does not fit in 128 bits.
fn checked_reward_debt(staked: u64, acc: u128) -> (r: Option<u128>)
    ensures
        r matches Some(d) ==> product_fits(staked as nat, acc as nat) && d == gross_reward(
            staked as nat,
            acc as nat,
        ),
        r is None ==> !product_fits(staked as nat, acc as nat),
{
    if (staked as u128).checked_mul(acc).is_none() {
        None
    } else {
        Some(calculate_reward_debt(staked, acc))
    }
}

/// Stakes `amount` more tokens from `owner` into the pool.
///
/// Refused while the pool is paused. On success the position's accrued
/// reward is banked, its stake and the pool total grow by `amount`, and the
/// reward debt is repriced; the caller moves `amount` from the participant
/// into the staking vault.
pub fn stake(
    config: &mut KernelConfig,
    user_stake: &mut UserStake,
    owner: &Pubkey,
    amount: u64,
    now: i64,
) -> (r: Result<TokenMovement, KernelError>)
    ensures
        match r {
            Ok(m) => {
                &&& stake_error(*old(config), *old(user_stake), *owner, amount) is None
                &&& *final(config) == staked_config(*old(config), amount)
                &&& *final(user_stake) == staked_position(*old(config), *old(user_stake), amount, now)
                &&& m == (TokenMovement::Transfer {
                    from: Custody::Participant,
                    to: Custody::StakingVault,
                    amount,
                })
            },
            Err(e) => {
                &&& stake_error(*old(config), *old(user_stake), *owner, amount) == Some(e)
                &&& *final(config) == *old(config)
                &&& *final(user_stake) == *old(user_stake)
            },
        },
{
    if !user_stake.owner.same_as(owner) {
        return Err(KernelError::NotOwner);
    }
    if amount == 0 {
        return Err(KernelError::ZeroAmount);
    }
    if config.is_paused {
        return Err(KernelError::ProgramPaused);
    }
    let banked = match bank_rewards(config, user_stake) {
        Some(p) => p,
        None => return Err(KernelError::MathOverflow),
    };
    let new_staked = match user_stake.staked_amount.checked_add(amount) {
        Some(s) => s,
        None => return Err(KernelError::MathOverflow),
    };
    let new_total = match config.total_staked.checked_add(amount) {
        Some(t) => t,
        None => return Err(KernelError::MathOverflow),
    };
    let new_debt = match checked_reward_debt(new_staked, config.accumulated_per_share) {
        Some(d) => d,
        None => return Err(KernelError::MathOverflow),
    };
    user_stake.pending_rewards = banked;
    user_stake.staked_amount = new_staked;
    user_stake.stake_time = now;
    user_stake.reward_debt = new_debt;
    config.total_staked = new_total;
    Ok(TokenMovement::Transfer { from: Custody::Participant, to: Custody::StakingVault, amount })
}

// ---- unstake ----

/// First check that refuses an unstake of `amount` by `owner`, if any. The
/// pause flag plays no part.
pub open spec fn unstake_error(c: KernelConfig, u: UserStake, owner: Pubkey, amount: u64) -> Option<KernelError> {
    if u.owner@ != owner@ {
        Some(KernelError::NotOwner)
    } else if amount == 0 {
        Some(KernelError::ZeroAmount)
    } else if amount > u.staked_amount {
        Some(KernelError::InsufficientStake)
    } else if !can_bank(c, u) || c.total_staked < amount {
        Some(KernelError::MathOverflow)
    } else {
        None
    }
}

/// Position after an accepted unstake of `amount`.
pub open spec fn unstaked_position(c: KernelConfig, u: UserStake, amount: u64) -> UserStake {
    rebanked(c, u, (u.staked_amount - amount) as nat)
}

/// Pool after an accepted unstake of `amount`.
pub open spec fn unstaked_config(c: KernelConfig, amount: u64) -> KernelConfig {
    KernelConfig { total_staked: (c.total_staked - amount) as u64, ..c }
}

proof fn lemma_product_fits_smaller(small: nat, big: nat, acc: nat)
    requires
        small <= big,
        product_fits(big, acc),
    ensures
        product_fits(small, acc),
{
    assert(small * acc <= big * acc) by (nonlinear_arith)
        requires small <= big;
}

/// Returns `amount` of staked tokens from the pool to `owner`.
///
/// Never refused for the pause flag: principal can always be withdrawn. On
/// success the accrued reward is banked, the stake and the pool total shrink
/// by `amount`, and the reward debt is repriced; the caller moves `amount`
/// from the staking vault back to the participant.
pub fn unstake(
    config: &mut KernelConfig,
    user_stake: &mut UserStake,
    owner: &Pubkey,
    amount: u64,
) -> (r: Result<TokenMovement, KernelError>)
    ensures
        match r {
            Ok(m) => {
                &&& unstake_error(*old(config), *old(user_stake), *owner, amount) is None
                &&& amount <= old(user_stake).staked_amount
                &&& *final(config) == unstaked_config(*old(config), amount)
                &&& *final(user_stake) == unstaked_position(*old(config), *old(user_stake), amount)
                &&& m == (TokenMovement::Transfer {
                    from: Custody::StakingVault,
                    to: Custody::Participant,
                    amount,
                })
            },
            Err(e) => {
                &&& unstake_error(*old(config), *old(user_stake), *owner, amount) == Some(e)
                &&& *final(config) == *old(config)
                &&& *final(user_stake) == *old(user_stake)
            },
        },
{
    if !user_stake.owner.same_as(owner) {
        return Err(KernelError::NotOwner);
    }
    if amount == 0 {
        return Err(KernelError::ZeroAmount);
    }
    if amount > user_stake.staked_amount {
        return Err(KernelError::InsufficientStake);
    }
    let banked = match bank_rewards(config, user_stake) {
        Some(p) => p,
        None => return Err(KernelError::MathOverflow),
    };
    if config.total_staked < amount {
        return Err(KernelError::MathOverflow);
    }
    let new_staked = user_stake.staked_amount - amount;
    proof {
        lemma_product_fits_smaller(
            new_staked as nat,
            user_stake.staked_amount as nat,
            config.accumulated_per_share as nat,
        );
    }
    let new_debt = calculate_reward_debt(new_staked, config.accumulated_per_share);
    user_stake.pending_rewards = banked;
    user_stake.staked_amount = new_staked;
    user_stake.reward_debt = new_debt;
    config.total_staked = config.total_staked - amount;
    Ok(TokenMovement::Transfer { from: Custody::StakingVault, to: Custody::Participant, amount })
}

// ---- claim ----

/// First check that refuses a claim by `owner`, if any. The pause flag plays
/// no part.
pub open spec fn claim_error(c: KernelConfig, u: UserStake, owner: Pubkey) -> Option<KernelError> {
    if u.owner@ != owner@ {
        Some(KernelError::NotOwner)
    } else if !can_bank(c, u) {
        Some(KernelError::MathOverflow)
    } else if claimable(c, u) == 0 {
        Some(KernelError::NothingToClaim)
    } else if u.total_claimed + claimable(c, u) > u64::MAX || c.total_reflections_distributed
        + claimable(c, u) > u64::MAX {
        Some(KernelError::MathOverflow)
    } else {
        None
    }
}

/// Position after an accepted claim.
pub open spec fn claimed_position(c: KernelConfig, u: UserStake) -> UserStake {
    UserStake {
        pending_rewards: 0,
        total_claimed: (u.total_claimed + claimable(c, u)) as u64,
        reward_debt: gross_reward(u.staked_amount as nat, c.accumulated_per_share as nat) as u128,
        ..u
    }
}

/// Pool after an accepted claim of `paid`.
pub open spec fn claimed_config(c: KernelConfig, paid: nat) -> KernelConfig {
    KernelConfig {
        total_reflections_distributed: (c.total_reflections_distributed + paid) as u64,
        pending_reflections: if c.pending_reflections >= paid {
            (c.pending_reflections - paid) as u64
        } else {
            0
        },
        ..c
    }
}

/// Pays out everything a position has earned.
///
/// Never refused for the pause flag. The amount paid is the banked reward
/// plus what accrued since the last update; it must be positive. On success
/// the banked reward is zeroed, the claimed totals grow by the amount paid,
/// the pool's pending gauge shrinks by it (stopping at zero), and the caller
/// moves the amount from the reward pool to the participant.
pub fn claim_reflections(
    config: &mut KernelConfig,
    user_stake: &mut UserStake,
    owner: &Pubkey,
) -> (r: Result<TokenMovement, KernelError>)
    ensures
        match r {
            Ok(m) => {
                &&& claim_error(*old(config), *old(user_stake), *owner) is None
                &&& *final(config) == claimed_config(
                    *old(config),
                    claimable(*old(config), *old(user_stake)),
                )
                &&& *final(user_stake) == claimed_position(*old(config), *old(user_stake))
                &&& m == (TokenMovement::Transfer {
                    from: Custody::ReflectionPool,
                    to: Custody::Participant,
                    amount: claimable(*old(config), *old(user_stake)) as u64,
                })
            },
            Err(e) => {
                &&& claim_error(*old(config), *old(user_stake), *owner) == Some(e)
                &&& *final(config) == *old(config)
                &&& *final(user_stake) == *old(user_stake)
            },
        },
{
    if !user_stake.owner.same_as(owner) {
        return Err(KernelError::NotOwner);
    }
    let total = match bank_rewards(config, user_stake) {
        Some(p) => p,
        None => return Err(KernelError::MathOverflow),
    };
    if total == 0 {
        return Err(KernelError::NothingToClaim);
    }
    let new_claimed = match user_stake.total_claimed.checked_add(total) {
        Some(v) => v,
        None => return Err(KernelError::MathOverflow),
    };
    let new_distributed = match config.total_reflections_distributed.checked_add(total) {
        Some(v) => v,
        None => return Err(KernelError::MathOverflow),
    };
    let new_debt = calculate_reward_debt(user_stake.staked_amount, config.accumulated_per_share);
    user_stake.pending_rewards = 0;
    user_stake.total_claimed = new_claimed;
    user_stake.reward_debt = new_debt;
    config.total_reflections_distributed = new_distributed;
    config.pending_reflections = config.pending_reflections.saturating_sub(total);
    Ok(
        TokenMovement::Transfer {
            from: Custody::ReflectionPool,
            to: Custody::Participant,
            amount: total,
        },
    )
}

// ---- deposit ----

/// First check that refuses a deposit of `amount` by `authority`, if any.
pub open spec fn deposit_error(c: KernelConfig, authority: Pubkey, amount: u64) -> Option<KernelError> {
    if c.authority@ != authority@ {
        Some(KernelError::NotAuthority)
    } else if amount == 0 {
        Some(KernelError::ZeroAmount)
    } else if c.accumulated_per_share + reward_per_share(amount as nat, c.total_staked as nat)
        > u128::MAX || c.pending_reflections + amount > u64::MAX {
        Some(KernelError::MathOverflow)
    } else {
        None
    }
}

/// Pool after an accepted deposit of `amount`: the accumulator grows by the
/// deposit's share per staked unit (nothing while no one stakes), and the
/// pending gauge by the whole deposit.
pub open spec fn deposited_config(c: KernelConfig, amount: u64) -> KernelConfig {
    KernelConfig {
        accumulated_per_share: (c.accumulated_per_share + reward_per_share(
            amount as nat,
            c.total_staked as nat,
        )) as u128,
        pending_reflections: (c.pending_reflections + amount) as u64,
        ..c
    }
}

/// Adds `amount` of fees to the reward pool and credits them to the stakers
/// through the accumulator.
///
/// Authority only. On success the caller moves `amount` from the authority
/// into the reward pool. The accumulator never decreases.
pub fn deposit_reflections(config: &mut KernelConfig, authority: &Pubkey, amount: u64) -> (r: Result<TokenMovement, KernelError>)
    ensures
        match r {
            Ok(m) => {
                &&& deposit_error(*old(config), *authority, amount) is None
                &&& *final(config) == deposited_config(*old(config), amount)
                &&& final(config).accumulated_per_share >= old(config).accumulated_per_share
                &&& m == (TokenMovement::Transfer {
                    from: Custody::Authority,
                    to: Custody::ReflectionPool,
                    amount,
                })
            },
            Err(e) => {
                &&& deposit_error(*old(config), *authority, amount) == Some(e)
                &&& *final(config) == *old(config)
            },
        },
{
    if !config.authority.same_as(authority) {
        return Err(KernelError::NotAuthority);
    }
    if amount == 0 {
        return Err(KernelError::ZeroAmount);
    }
    let increment = calculate_reward_per_share(amount, config.total_staked);
    let new_acc = match config.accumulated_per_share.checked_add(increment) {
        Some(a) => a,
        None => return Err(KernelError::MathOverflow),
    };
    let new_pending = match config.pending_reflections.checked_add(amount) {
        Some(p) => p,
        None => return Err(KernelError::MathOverflow),
    };
    config.accumulated_per_share = new_acc;
    config.pending_reflections = new_pending;
    Ok(TokenMovement::Transfer { from: Custody::Authority, to: Custody::ReflectionPool, amount })
}

} // verus!
