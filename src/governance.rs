use vstd::prelude::*;
use crate::pubkey::Pubkey;
use crate::state::{
    fee_shares_sum_ok, fee_shares_valid, FeeProposal, KernelConfig, KernelError,
    PendingAuthorityTransfer,
};
use crate::timelock::{check_cancellable, check_executable, execute_rejection, TimelockRejection};

verus! {

/// Error of a fee proposal for a timelock rejection.
pub open spec fn fee_rejection_error(t: TimelockRejection) -> KernelError {
    match t {
        TimelockRejection::AlreadyExecuted => KernelError::ProposalAlreadyExecuted,
        TimelockRejection::Cancelled => KernelError::ProposalCancelled,
        TimelockRejection::NotExpired => KernelError::TimelockNotExpired,
    }
}

/// Error of an authority transfer for a timelock rejection.
pub open spec fn transfer_rejection_error(t: TimelockRejection) -> KernelError {
    match t {
        TimelockRejection::AlreadyExecuted => KernelError::AuthorityTransferAlreadyExecuted,
        TimelockRejection::Cancelled => KernelError::AuthorityTransferCancelled,
        TimelockRejection::NotExpired => KernelError::TimelockNotExpired,
    }
}

fn fee_error_of(t: TimelockRejection) -> (r: KernelError)
    ensures
        r == fee_rejection_error(t),
{
    match t {
        TimelockRejection::AlreadyExecuted => KernelError::ProposalAlreadyExecuted,
        TimelockRejection::Cancelled => KernelError::ProposalCancelled,
        TimelockRejection::NotExpired => KernelError::TimelockNotExpired,
    }
}

fn transfer_error_of(t: TimelockRejection) -> (r: KernelError)
    ensures
        r == transfer_rejection_error(t),
{
    match t {
        TimelockRejection::AlreadyExecuted => KernelError::AuthorityTransferAlreadyExecuted,
        TimelockRejection::Cancelled => KernelError::AuthorityTransferCancelled,
        TimelockRejection::NotExpired => KernelError::TimelockNotExpired,
    }
}

/// Pool created by `initialize`.
pub open spec fn initial_config(
    authority: Pubkey,
    token_mint: Pubkey,
    staking_vault: Pubkey,
    reflection_pool: Pubkey,
    reflection_share_bps: u16,
    lp_share_bps: u16,
    burn_share_bps: u16,
    bump: u8,
    vault_bump: u8,
) -> KernelConfig {
    KernelConfig {
        authority,
        token_mint,
        staking_vault,
        reflection_pool,
        reflection_share_bps,
        lp_share_bps,
        burn_share_bps,
        total_staked: 0,
        total_reflections_distributed: 0,
        pending_reflections: 0,
        accumulated_per_share: 0,
        is_paused: false,
        bump,
        vault_bump,
    }
}

/// Creates a pool with the given fee shares, which must sum to 500 basis
/// points. All totals start at zero and the pool is not paused.
pub fn initialize(
    authority: Pubkey,
    token_mint: Pubkey,
    staking_vault: Pubkey,
    reflection_pool: Pubkey,
    reflection_share_bps: u16,
    lp_share_bps: u16,
    burn_share_bps: u16,
    bump: u8,
    vault_bump: u8,
) -> (r: Result<KernelConfig, KernelError>)
    ensures
        r is Ok <==> fee_shares_valid(reflection_share_bps, lp_share_bps, burn_share_bps),
        r matches Ok(c) ==> c == initial_config(
            authority,
            token_mint,
            staking_vault,
            reflection_pool,
            reflection_share_bps,
            lp_share_bps,
            burn_share_bps,
            bump,
            vault_bump,
        ) && c.fees_valid(),
        r matches Err(e) ==> e == KernelError::InvalidFeeConfig,
{
    if !fee_shares_sum_ok(reflection_share_bps, lp_share_bps, burn_share_bps) {
        return Err(KernelError::InvalidFeeConfig);
    }
    Ok(
        KernelConfig {
            authority,
            token_mint,
            staking_vault,
            reflection_pool,
            reflection_share_bps,
            lp_share_bps,
            burn_share_bps,
            total_staked: 0,
            total_reflections_distributed: 0,
            pending_reflections: 0,
            accumulated_per_share: 0,
            is_paused: false,
            bump,
            vault_bump,
        },
    )
}

// ---- fee proposals ----

/// First check that refuses a fee proposal, if any.
pub open spec fn propose_fee_error(c: KernelConfig, authority: Pubkey, r: u16, l: u16, b: u16) -> Option<KernelError> {
    if c.authority@ != authority@ {
        Some(KernelError::NotAuthority)
    } else if !fee_shares_valid(r, l, b) {
        Some(KernelError::InvalidFeeConfig)
    } else {
        None
    }
}

/// Proposes new fee shares, which must sum to 500 basis points. The returned
/// proposal is live: neither executed nor cancelled, timed from `now`.
pub fn propose_fee_update(
    config: &KernelConfig,
    authority: &Pubkey,
    reflection_share_bps: u16,
    lp_share_bps: u16,
    burn_share_bps: u16,
    now: i64,
    bump: u8,
) -> (r: Result<FeeProposal, KernelError>)
    ensures
        match r {
            Ok(p) => {
                &&& propose_fee_error(
                    *config,
                    *authority,
                    reflection_share_bps,
                    lp_share_bps,
                    burn_share_bps,
                ) is None
                &&& p == (FeeProposal {
                    proposer: *authority,
                    reflection_share_bps,
                    lp_share_bps,
                    burn_share_bps,
                    proposed_at: now,
                    executed: false,
                    cancelled: false,
                    bump,
                })
            },
            Err(e) => propose_fee_error(
                *config,
                *authority,
                reflection_share_bps,
                lp_share_bps,
                burn_share_bps,
            ) == Some(e),
        },
{
    if !config.authority.same_as(authority) {
        return Err(KernelError::NotAuthority);
    }
    if !fee_shares_sum_ok(reflection_share_bps, lp_share_bps, burn_share_bps) {
        return Err(KernelError::InvalidFeeConfig);
    }
    Ok(
        FeeProposal {
            proposer: *authority,
            reflection_share_bps,
            lp_share_bps,
            burn_share_bps,
            proposed_at: now,
            executed: false,
            cancelled: false,
            bump,
        },
    )
}

/// First check that refuses executing a fee proposal at `now`, if any.
pub open spec fn execute_fee_error(c: KernelConfig, p: FeeProposal, authority: Pubkey, now: i64) -> Option<KernelError> {
    if c.authority@ != authority@ || p.proposer@ != authority@ {
        Some(KernelError::NotAuthority)
    } else if execute_rejection(p.executed, p.cancelled, p.proposed_at, now) is Some {
        Some(fee_rejection_error(execute_rejection(p.executed, p.cancelled, p.proposed_at, now)->0))
    } else if !fee_shares_valid(p.reflection_share_bps, p.lp_share_bps, p.burn_share_bps) {
        Some(KernelError::InvalidFeeConfig)
    } else {
        None
    }
}

/// Pool after executing a fee proposal.
pub open spec fn fee_applied(c: KernelConfig, p: FeeProposal) -> KernelConfig {
    KernelConfig {
        reflection_share_bps: p.reflection_share_bps,
        lp_share_bps: p.lp_share_bps,
        burn_share_bps: p.burn_share_bps,
        ..c
    }
}

/// Applies a fee proposal once its delay has run out.
///
/// Refused for a proposal that already executed or was cancelled, and before
/// the delay has passed. On success the pool takes the proposed shares and
/// the proposal is marked executed, so it cannot execute again.
pub fn execute_fee_update(
    config: &mut KernelConfig,
    proposal: &mut FeeProposal,
    authority: &Pubkey,
    now: i64,
) -> (r: Result<(), KernelError>)
    ensures
        match r {
            Ok(()) => {
                &&& execute_fee_error(*old(config), *old(proposal), *authority, now) is None
                &&& *final(config) == fee_applied(*old(config), *old(proposal))
                &&& *final(proposal) == (FeeProposal { executed: true, ..*old(proposal) })
                &&& final(config).fees_valid()
            },
            Err(e) => {
                &&& execute_fee_error(*old(config), *old(proposal), *authority, now) == Some(e)
                &&& *final(config) == *old(config)
                &&& *final(proposal) == *old(proposal)
            },
        },
{
    if !config.authority.same_as(authority) || !proposal.proposer.same_as(authority) {
        return Err(KernelError::NotAuthority);
    }
    match check_executable(proposal.executed, proposal.cancelled, proposal.proposed_at, now) {
        Ok(()) => {},
        Err(t) => return Err(fee_error_of(t)),
    }
    if !fee_shares_sum_ok(
        proposal.reflection_share_bps,
        proposal.lp_share_bps,
        proposal.burn_share_bps,
    ) {
        return Err(KernelError::InvalidFeeConfig);
    }
    config.reflection_share_bps = proposal.reflection_share_bps;
    config.lp_share_bps = proposal.lp_share_bps;
    config.burn_share_bps = proposal.burn_share_bps;
    proposal.executed = true;
    Ok(())
}

/// First check that refuses cancelling a fee proposal, if any.
pub open spec fn cancel_fee_error(c: KernelConfig, p: FeeProposal, authority: Pubkey) -> Option<KernelError> {
    if c.authority@ != authority@ {
        Some(KernelError::NotAuthority)
    } else if p.executed {
        Some(KernelError::ProposalAlreadyExecuted)
    } else {
        None
    }
}

/// Cancels a fee proposal for good, whatever time has passed. Refused once
/// the proposal has executed.
pub fn cancel_fee_proposal(config: &KernelConfig, proposal: &mut FeeProposal, authority: &Pubkey) -> (r: Result<(), KernelError>)
    ensures
        match r {
            Ok(()) => {
                &&& cancel_fee_error(*config, *old(proposal), *authority) is None
                &&& *final(proposal) == (FeeProposal { cancelled: true, ..*old(proposal) })
            },
            Err(e) => {
                &&& cancel_fee_error(*config, *old(proposal), *authority) == Some(e)
                &&& *final(proposal) == *old(proposal)
            },
        },
{
    if !config.authority.same_as(authority) {
        return Err(KernelError::NotAuthority);
    }
    match check_cancellable(proposal.executed) {
        Ok(()) => {},
        Err(t) => return Err(fee_error_of(t)),
    }
    proposal.cancelled = true;
    Ok(())
}

/// First check that refuses an emergency fee update, if any.
pub open spec fn update_fees_error(c: KernelConfig, authority: Pubkey, guardian: Pubkey, r: u16, l: u16, b: u16) -> Option<KernelError> {
    if c.authority@ != authority@ {
        Some(KernelError::NotAuthority)
    } else if guardian@ == authority@ {
        Some(KernelError::GuardianRequired)
    } else if !fee_shares_valid(r, l, b) {
        Some(KernelError::InvalidFeeConfig)
    } else {
        None
    }
}

/// Emergency fee change that takes effect at once, without the timelock.
///
/// Needs the authority and a co-signing guardian distinct from it; the shares
/// must sum to 500 basis points.
pub fn update_fees(
    config: &mut KernelConfig,
    authority: &Pubkey,
    guardian: &Pubkey,
    reflection_share_bps: u16,
    lp_share_bps: u16,
    burn_share_bps: u16,
) -> (r: Result<(), KernelError>)
    ensures
        match r {
            Ok(()) => {
                &&& update_fees_error(
                    *old(config),
                    *authority,
                    *guardian,
                    reflection_share_bps,
                    lp_share_bps,
                    burn_share_bps,
                ) is None
                &&& *final(config) == (KernelConfig {
                    reflection_share_bps,
                    lp_share_bps,
                    burn_share_bps,
                    ..*old(config)
                })
                &&& final(config).fees_valid()
            },
            Err(e) => {
                &&& update_fees_error(
                    *old(config),
                    *authority,
                    *guardian,
                    reflection_share_bps,
                    lp_share_bps,
                    burn_share_bps,
                ) == Some(e)
                &&& *final(config) == *old(config)
            },
        },
{
    if !config.authority.same_as(authority) {
        return Err(KernelError::NotAuthority);
    }
    if guardian.same_as(authority) {
        return Err(KernelError::GuardianRequired);
    }
    if !fee_shares_sum_ok(reflection_share_bps, lp_share_bps, burn_share_bps) {
        return Err(KernelError::InvalidFeeConfig);
    }
    config.reflection_share_bps = reflection_share_bps;
    config.lp_share_bps = lp_share_bps;
    config.burn_share_bps = burn_share_bps;
    Ok(())
}

/// Sets the pause flag. Authority only.
pub fn set_paused(config: &mut KernelConfig, authority: &Pubkey, paused: bool) -> (r: Result<(), KernelError>)
    ensures
        r is Ok <==> old(config).authority@ == authority@,
        r matches Ok(()) ==> *final(config) == (KernelConfig { is_paused: paused, ..*old(config) }),
        r matches Err(e) ==> e == KernelError::NotAuthority && *final(config) == *old(config),
{
    if !config.authority.same_as(authority) {
        return Err(KernelError::NotAuthority);
    }
    config.is_paused = paused;
    Ok(())
}

// ---- authority transfers ----

/// Proposes handing the pool authority to `new_authority`. The returned
/// proposal is live, timed from `now`.
pub fn propose_authority_transfer(
    config: &KernelConfig,
    authority: &Pubkey,
    new_authority: Pubkey,
    now: i64,
    bump: u8,
) -> (r: Result<PendingAuthorityTransfer, KernelError>)
    ensures
        r is Ok <==> config.authority@ == authority@,
        r matches Ok(t) ==> t == (PendingAuthorityTransfer {
            proposer: *authority,
            new_authority,
            proposed_at: now,
            executed: false,
            cancelled: false,
            bump,
        }),
        r matches Err(e) ==> e == KernelError::NotAuthority,
{
    if !config.authority.same_as(authority) {
        return Err(KernelError::NotAuthority);
    }
    Ok(
        PendingAuthorityTransfer {
            proposer: *authority,
            new_authority,
            proposed_at: now,
            executed: false,
            cancelled: false,
            bump,
        },
    )
}

/// First check that refuses executing an authority transfer at `now`, if any.
pub open spec fn execute_transfer_error(c: KernelConfig, t: PendingAuthorityTransfer, authority: Pubkey, now: i64) -> Option<KernelError> {
    if c.authority@ != authority@ || t.proposer@ != authority@ {
        Some(KernelError::NotAuthority)
    } else if execute_rejection(t.executed, t.cancelled, t.proposed_at, now) is Some {
        Some(transfer_rejection_error(execute_rejection(t.executed, t.cancelled, t.proposed_at, now)->0))
    } else {
        None
    }
}

/// Hands the pool authority over once the delay has run out.
///
/// Refused for a transfer that already executed or was cancelled, and before
/// the delay has passed. On success the pool's authority is the proposed
/// identity and the transfer is marked executed.
pub fn execute_authority_transfer(
    config: &mut KernelConfig,
    transfer: &mut PendingAuthorityTransfer,
    authority: &Pubkey,
    now: i64,
) -> (r: Result<(), KernelError>)
    ensures
        match r {
            Ok(()) => {
                &&& execute_transfer_error(*old(config), *old(transfer), *authority, now) is None
                &&& *final(config) == (KernelConfig {
                    authority: old(transfer).new_authority,
                    ..*old(config)
                })
                &&& *final(transfer) == (PendingAuthorityTransfer {
                    executed: true,
                    ..*old(transfer)
                })
            },
            Err(e) => {
                &&& execute_transfer_error(*old(config), *old(transfer), *authority, now) == Some(e)
                &&& *final(config) == *old(config)
                &&& *final(transfer) == *old(transfer)
            },
        },
{
    if !config.authority.same_as(authority) || !transfer.proposer.same_as(authority) {
        return Err(KernelError::NotAuthority);
    }
    match check_executable(transfer.executed, transfer.cancelled, transfer.proposed_at, now) {
        Ok(()) => {},
        Err(t) => return Err(transfer_error_of(t)),
    }
    config.authority = transfer.new_authority;
    transfer.executed = true;
    Ok(())
}

/// First check that refuses cancelling an authority transfer, if any.
pub open spec fn cancel_transfer_error(c: KernelConfig, t: PendingAuthorityTransfer, authority: Pubkey) -> Option<KernelError> {
    if c.authority@ != authority@ {
        Some(KernelError::NotAuthority)
    } else if t.executed {
        Some(KernelError::AuthorityTransferAlreadyExecuted)
    } else {
        None
    }
}

/// Cancels an authority transfer for good. Refused once it has executed.
pub fn cancel_authority_transfer(
    config: &KernelConfig,
    transfer: &mut PendingAuthorityTransfer,
    authority: &Pubkey,
) -> (r: Result<(), KernelError>)
    ensures
        match r {
            Ok(()) => {
                &&& cancel_transfer_error(*config, *old(transfer), *authority) is None
                &&& *final(transfer) == (PendingAuthorityTransfer {
                    cancelled: true,
                    ..*old(transfer)
                })
            },
            Err(e) => {
                &&& cancel_transfer_error(*config, *old(transfer), *authority) == Some(e)
                &&& *final(transfer) == *old(transfer)
            },
        },
{
    if !config.authority.same_as(authority) {
        return Err(KernelError::NotAuthority);
    }
    match check_cancellable(transfer.executed) {
        Ok(()) => {},
        Err(t) => return Err(transfer_error_of(t)),
    }
    transfer.cancelled = true;
    Ok(())
}

} // verus!
