use vstd::prelude::*;
use crate::pubkey::Pubkey;
use crate::state::{FeeProposal, KernelConfig, KernelError, PendingAuthorityTransfer, UserStake};
use crate::staking::{
    claim_error, stake_error, staked_config, staked_position, unstake_error, unstaked_config,
    unstaked_position,
};
use crate::governance::{
    execute_fee_error, execute_transfer_error, fee_applied,
};
use crate::timelock::delay_elapsed;
use crate::liquidity::withdraw_error;

verus! {

/// Sum of the staked amounts of `positions`.
pub open spec fn total_of(positions: Seq<UserStake>) -> nat
    decreases positions.len(),
{
    if positions.len() == 0 {
        0
    } else {
        total_of(positions.drop_last()) + positions.last().staked_amount as nat
    }
}

proof fn lemma_total_of_update(positions: Seq<UserStake>, i: int, u: UserStake)
    requires
        0 <= i < positions.len(),
    ensures
        total_of(positions.update(i, u)) == total_of(positions) - positions[i].staked_amount
            + u.staked_amount,
    decreases positions.len(),
{
    let updated = positions.update(i, u);
    if i == positions.len() - 1 {
        assert(updated.drop_last() =~= positions.drop_last());
    } else {
        assert(updated.drop_last() =~= positions.drop_last().update(i, u));
        lemma_total_of_update(positions.drop_last(), i, u);
    }
}

/// A stake or unstake by the owner of one position of a pool.
pub enum StakeOp {
    Stake { index: int, owner: Pubkey, amount: u64, now: i64 },
    Unstake { index: int, owner: Pubkey, amount: u64 },
}

/// Pool and positions after `op`; a refused operation changes nothing, and
/// so does one that names no position.
pub open spec fn apply_op(c: KernelConfig, ps: Seq<UserStake>, op: StakeOp) -> (KernelConfig, Seq<UserStake>) {
    match op {
        StakeOp::Stake { index, owner, amount, now } => {
            if 0 <= index < ps.len() && stake_error(c, ps[index], owner, amount) is None {
                (
                    staked_config(c, amount),
                    ps.update(index, staked_position(c, ps[index], amount, now)),
                )
            } else {
                (c, ps)
            }
        },
        StakeOp::Unstake { index, owner, amount } => {
            if 0 <= index < ps.len() && unstake_error(c, ps[index], owner, amount) is None {
                (unstaked_config(c, amount), ps.update(index, unstaked_position(c, ps[index], amount)))
            } else {
                (c, ps)
            }
        },
    }
}

/// Pool and positions after the operations of `ops`, in order.
pub open spec fn apply_ops(c: KernelConfig, ps: Seq<UserStake>, ops: Seq<StakeOp>) -> (KernelConfig, Seq<UserStake>)
    decreases ops.len(),
{
    if ops.len() == 0 {
        (c, ps)
    } else {
        let (c1, ps1) = apply_ops(c, ps, ops.drop_last());
        apply_op(c1, ps1, ops.last())
    }
}

/// Conservation of stake, one operation: where the pool total equals the sum
/// of the positions' stakes, it still does after any stake or unstake.
pub proof fn lemma_stake_op_conserves(c: KernelConfig, ps: Seq<UserStake>, op: StakeOp)
    requires
        c.total_staked == total_of(ps),
    ensures
        apply_op(c, ps, op).0.total_staked == total_of(apply_op(c, ps, op).1),
{
    match op {
        StakeOp::Stake { index, owner, amount, now } => {
            if 0 <= index < ps.len() && stake_error(c, ps[index], owner, amount) is None {
                lemma_total_of_update(ps, index, staked_position(c, ps[index], amount, now));
            }
        },
        StakeOp::Unstake { index, owner, amount } => {
            if 0 <= index < ps.len() && unstake_error(c, ps[index], owner, amount) is None {
                lemma_total_of_update(ps, index, unstaked_position(c, ps[index], amount));
            }
        },
    }
}

/// Conservation of stake: for every sequence of stakes and unstakes, the
/// pool total stays equal to the sum of the positions' stakes.
pub proof fn lemma_stake_conservation(c: KernelConfig, ps: Seq<UserStake>, ops: Seq<StakeOp>)
    requires
        c.total_staked == total_of(ps),
    ensures
        apply_ops(c, ps, ops).0.total_staked == total_of(apply_ops(c, ps, ops).1),
    decreases ops.len(),
{
    if ops.len() > 0 {
        lemma_stake_conservation(c, ps, ops.drop_last());
        let (c1, ps1) = apply_ops(c, ps, ops.drop_last());
        lemma_stake_op_conserves(c1, ps1, ops.last());
    }
}

/// Accumulator monotonicity: stakes and unstakes leave the accumulator as it
/// was.
pub proof fn lemma_stake_ops_keep_accumulator(c: KernelConfig, ps: Seq<UserStake>, ops: Seq<StakeOp>)
    ensures
        apply_ops(c, ps, ops).0.accumulated_per_share == c.accumulated_per_share,
    decreases ops.len(),
{
    if ops.len() > 0 {
        lemma_stake_ops_keep_accumulator(c, ps, ops.drop_last());
    }
}

/// Timelock gating of fee proposals: an accepted execution had waited out the
/// delay on a proposal neither executed nor cancelled; and a cancelled
/// proposal is refused at every time, however late.
pub proof fn lemma_fee_timelock_gating(c: KernelConfig, p: FeeProposal, authority: Pubkey, now: i64)
    ensures
        execute_fee_error(c, p, authority, now) is None ==> delay_elapsed(p.proposed_at, now)
            && !p.executed && !p.cancelled,
        p.cancelled ==> execute_fee_error(c, p, authority, now) is Some,
        p.cancelled && !p.executed && c.authority@ == authority@ && p.proposer@ == authority@
            ==> execute_fee_error(c, p, authority, now) == Some(KernelError::ProposalCancelled),
{
}

/// Timelock gating of authority transfers, as for fee proposals.
pub proof fn lemma_transfer_timelock_gating(
    c: KernelConfig,
    t: PendingAuthorityTransfer,
    authority: Pubkey,
    now: i64,
)
    ensures
        execute_transfer_error(c, t, authority, now) is None ==> delay_elapsed(t.proposed_at, now)
            && !t.executed && !t.cancelled,
        t.cancelled ==> execute_transfer_error(c, t, authority, now) is Some,
        t.cancelled && !t.executed && c.authority@ == authority@ && t.proposer@ == authority@
            ==> execute_transfer_error(c, t, authority, now) == Some(
            KernelError::AuthorityTransferCancelled,
        ),
{
}

/// Single execution of fee proposals: once a proposal has executed, executing
/// it again by the same authority fails as already executed, at every time.
pub proof fn lemma_fee_single_execution(
    c: KernelConfig,
    p: FeeProposal,
    authority: Pubkey,
    now: i64,
    later: i64,
)
    requires
        execute_fee_error(c, p, authority, now) is None,
    ensures
        execute_fee_error(fee_applied(c, p), FeeProposal { executed: true, ..p }, authority, later)
            == Some(KernelError::ProposalAlreadyExecuted),
{
}

/// Single execution of authority transfers: once a transfer has executed,
/// executing it again fails at every time, whoever calls; the caller who
/// passes the authority checks is told it already executed.
pub proof fn lemma_transfer_single_execution(
    c: KernelConfig,
    t: PendingAuthorityTransfer,
    authority: Pubkey,
    now: i64,
    caller: Pubkey,
    later: i64,
)
    requires
        execute_transfer_error(c, t, authority, now) is None,
    ensures
        execute_transfer_error(
            KernelConfig { authority: t.new_authority, ..c },
            PendingAuthorityTransfer { executed: true, ..t },
            caller,
            later,
        ) is Some,
        t.new_authority@ == caller@ && t.proposer@ == caller@ ==> execute_transfer_error(
            KernelConfig { authority: t.new_authority, ..c },
            PendingAuthorityTransfer { executed: true, ..t },
            caller,
            later,
        ) == Some(KernelError::AuthorityTransferAlreadyExecuted),
{
}

/// Pause exemption: a paused pool refuses stakes by the owner of a nonzero
/// amount, while unstakes, claims and vault withdrawals are decided exactly
/// as on the same pool unpaused.
pub proof fn lemma_pause_exemption(
    c: KernelConfig,
    u: UserStake,
    owner: Pubkey,
    amount: u64,
    v: crate::state::LPVault,
    authority: Pubkey,
)
    ensures
        ({
            let paused = KernelConfig { is_paused: true, ..c };
            let running = KernelConfig { is_paused: false, ..c };
            &&& u.owner@ == owner@ && amount > 0 ==> stake_error(paused, u, owner, amount) == Some(
                KernelError::ProgramPaused,
            )
            &&& unstake_error(paused, u, owner, amount) == unstake_error(running, u, owner, amount)
            &&& claim_error(paused, u, owner) == claim_error(running, u, owner)
            &&& withdraw_error(paused, v, authority, amount) == withdraw_error(
                running,
                v,
                authority,
                amount,
            )
        }),
{
}

} // verus!
