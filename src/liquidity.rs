use vstd::prelude::*;
use crate::pubkey::Pubkey;
use crate::state::{Custody, KernelConfig, KernelError, LPDeployment, LPVault, TokenMovement};

verus! {

/// Creates the liquidity vault of a pool, with every total at zero.
/// Authority only.
pub fn initialize_lp_vault(
    config: &KernelConfig,
    authority: &Pubkey,
    bump: u8,
    vault_token_bump: u8,
) -> (r: Result<LPVault, KernelError>)
    ensures
        r is Ok <==> config.authority@ == authority@,
        r matches Ok(v) ==> v == (LPVault {
            authority: *authority,
            token_mint: config.token_mint,
            total_allocated: 0,
            total_deployed: 0,
            pending_deployment: 0,
            last_deployment_time: 0,
            bump,
            vault_token_bump,
        }) && v.balanced(),
        r matches Err(e) ==> e == KernelError::NotAuthority,
{
    if !config.authority.same_as(authority) {
        return Err(KernelError::NotAuthority);
    }
    Ok(
        LPVault {
            authority: *authority,
            token_mint: config.token_mint,
            total_allocated: 0,
            total_deployed: 0,
            pending_deployment: 0,
            last_deployment_time: 0,
            bump,
            vault_token_bump,
        },
    )
}

/// First check that refuses allocating `amount` to the vault, if any.
pub open spec fn allocate_error(c: KernelConfig, v: LPVault, authority: Pubkey, amount: u64) -> Option<KernelError> {
    if c.authority@ != authority@ {
        Some(KernelError::NotAuthority)
    } else if amount == 0 {
        Some(KernelError::ZeroAmount)
    } else if v.total_allocated + amount > u64::MAX || v.pending_deployment + amount > u64::MAX {
        Some(KernelError::MathOverflow)
    } else {
        None
    }
}

/// Earmarks `amount` of the authority's tokens for liquidity.
///
/// Not refused for the pause flag. On success the allocated and pending
/// totals grow by `amount` and the caller moves it from the authority into
/// the vault's custody.
pub fn allocate_to_lp(
    config: &KernelConfig,
    lp_vault: &mut LPVault,
    authority: &Pubkey,
    amount: u64,
) -> (r: Result<TokenMovement, KernelError>)
    ensures
        match r {
            Ok(m) => {
                &&& allocate_error(*config, *old(lp_vault), *authority, amount) is None
                &&& *final(lp_vault) == (LPVault {
                    total_allocated: (old(lp_vault).total_allocated + amount) as u64,
                    pending_deployment: (old(lp_vault).pending_deployment + amount) as u64,
                    ..*old(lp_vault)
                })
                &&& old(lp_vault).balanced() ==> final(lp_vault).balanced()
                &&& m == (TokenMovement::Transfer {
                    from: Custody::Authority,
                    to: Custody::LpVault,
                    amount,
                })
            },
            Err(e) => {
                &&& allocate_error(*config, *old(lp_vault), *authority, amount) == Some(e)
                &&& *final(lp_vault) == *old(lp_vault)
            },
        },
{
    if !config.authority.same_as(authority) {
        return Err(KernelError::NotAuthority);
    }
    if amount == 0 {
        return Err(KernelError::ZeroAmount);
    }
    let new_allocated = match lp_vault.total_allocated.checked_add(amount) {
        Some(v) => v,
        None => return Err(KernelError::MathOverflow),
    };
    let new_pending = match lp_vault.pending_deployment.checked_add(amount) {
        Some(v) => v,
        None => return Err(KernelError::MathOverflow),
    };
    lp_vault.total_allocated = new_allocated;
    lp_vault.pending_deployment = new_pending;
    Ok(TokenMovement::Transfer { from: Custody::Authority, to: Custody::LpVault, amount })
}

/// First check that refuses recording a deployment of `amount`, if any.
pub open spec fn record_error(c: KernelConfig, v: LPVault, authority: Pubkey, amount: u64) -> Option<KernelError> {
    if c.authority@ != authority@ {
        Some(KernelError::NotAuthority)
    } else if amount == 0 {
        Some(KernelError::ZeroAmount)
    } else if v.pending_deployment < amount {
        Some(KernelError::InsufficientLPFunds)
    } else if v.total_deployed + amount > u64::MAX {
        Some(KernelError::MathOverflow)
    } else {
        None
    }
}

/// Records that `amount` of the pending funds were deployed to the pool at
/// `pool_address` outside the ledger, for `lp_tokens_received` shares.
///
/// Moves no tokens. On success `amount` passes from pending to deployed and
/// the returned record describes the deployment.
pub fn record_lp_deployment(
    config: &KernelConfig,
    lp_vault: &mut LPVault,
    authority: &Pubkey,
    amount: u64,
    lp_tokens_received: u64,
    pool_address: Pubkey,
    now: i64,
    bump: u8,
) -> (r: Result<LPDeployment, KernelError>)
    ensures
        match r {
            Ok(d) => {
                &&& record_error(*config, *old(lp_vault), *authority, amount) is None
                &&& *final(lp_vault) == (LPVault {
                    pending_deployment: (old(lp_vault).pending_deployment - amount) as u64,
                    total_deployed: (old(lp_vault).total_deployed + amount) as u64,
                    last_deployment_time: now,
                    ..*old(lp_vault)
                })
                &&& old(lp_vault).balanced() ==> final(lp_vault).balanced()
                &&& d == (LPDeployment {
                    pool_address,
                    kernel_amount: amount,
                    lp_tokens_received,
                    deployed_at: now,
                    withdrawn: false,
                    bump,
                })
            },
            Err(e) => {
                &&& record_error(*config, *old(lp_vault), *authority, amount) == Some(e)
                &&& *final(lp_vault) == *old(lp_vault)
            },
        },
{
    if !config.authority.same_as(authority) {
        return Err(KernelError::NotAuthority);
    }
    if amount == 0 {
        return Err(KernelError::ZeroAmount);
    }
    if lp_vault.pending_deployment < amount {
        return Err(KernelError::InsufficientLPFunds);
    }
    let new_deployed = match lp_vault.total_deployed.checked_add(amount) {
        Some(v) => v,
        None => return Err(KernelError::MathOverflow),
    };
    lp_vault.pending_deployment = lp_vault.pending_deployment - amount;
    lp_vault.total_deployed = new_deployed;
    lp_vault.last_deployment_time = now;
    Ok(
        LPDeployment {
            pool_address,
            kernel_amount: amount,
            lp_tokens_received,
            deployed_at: now,
            withdrawn: false,
            bump,
        },
    )
}

/// First check that refuses withdrawing `amount` from the vault, if any. The
/// pause flag plays no part.
pub open spec fn withdraw_error(c: KernelConfig, v: LPVault, authority: Pubkey, amount: u64) -> Option<KernelError> {
    if c.authority@ != authority@ {
        Some(KernelError::NotAuthority)
    } else if amount == 0 {
        Some(KernelError::ZeroAmount)
    } else if v.pending_deployment < amount {
        Some(KernelError::InsufficientLPFunds)
    } else if v.total_allocated < amount {
        Some(KernelError::MathOverflow)
    } else {
        None
    }
}

/// Returns `amount` of undeployed funds to the authority.
///
/// Never refused for the pause flag, so funds can always be recovered. On
/// success the pending and allocated totals both shrink by `amount`, so a
/// balanced vault stays balanced, and the caller moves it from the vault's
/// custody back to the authority.
pub fn withdraw_from_lp_vault(
    config: &KernelConfig,
    lp_vault: &mut LPVault,
    authority: &Pubkey,
    amount: u64,
) -> (r: Result<TokenMovement, KernelError>)
    ensures
        match r {
            Ok(m) => {
                &&& withdraw_error(*config, *old(lp_vault), *authority, amount) is None
                &&& *final(lp_vault) == (LPVault {
                    pending_deployment: (old(lp_vault).pending_deployment - amount) as u64,
                    total_allocated: (old(lp_vault).total_allocated - amount) as u64,
                    ..*old(lp_vault)
                })
                &&& old(lp_vault).balanced() ==> final(lp_vault).balanced()
                &&& m == (TokenMovement::Transfer {
                    from: Custody::LpVault,
                    to: Custody::Authority,
                    amount,
                })
            },
            Err(e) => {
                &&& withdraw_error(*config, *old(lp_vault), *authority, amount) == Some(e)
                &&& *final(lp_vault) == *old(lp_vault)
            },
        },
{
    if !config.authority.same_as(authority) {
        return Err(KernelError::NotAuthority);
    }
    if amount == 0 {
        return Err(KernelError::ZeroAmount);
    }
    if lp_vault.pending_deployment < amount {
        return Err(KernelError::InsufficientLPFunds);
    }
    if lp_vault.total_allocated < amount {
        return Err(KernelError::MathOverflow);
    }
    lp_vault.pending_deployment = lp_vault.pending_deployment - amount;
    lp_vault.total_allocated = lp_vault.total_allocated - amount;
    Ok(TokenMovement::Transfer { from: Custody::LpVault, to: Custody::Authority, amount })
}

} // verus!
