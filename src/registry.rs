use vstd::prelude::*;
use crate::pubkey::Pubkey;
use crate::state::{AirdropState, BurnRecord, Custody, KernelConfig, KernelError, TokenMovement};

verus! {

/// Most recipients one airdrop registration may name.
pub const MAX_AIRDROP_RECIPIENTS: usize = 50;

/// First check that refuses burning `amount`, if any.
pub open spec fn burn_error(c: KernelConfig, b: BurnRecord, authority: Pubkey, amount: u64) -> Option<KernelError> {
    if c.authority@ != authority@ {
        Some(KernelError::NotAuthority)
    } else if amount == 0 {
        Some(KernelError::ZeroAmount)
    } else if b.total_burned + amount > u64::MAX {
        Some(KernelError::MathOverflow)
    } else {
        None
    }
}

/// Burns `amount` of the authority's tokens and records it.
///
/// On success the burned total grows by `amount`, the count by one (stopping
/// at its maximum), the time of the last burn is `now`, and the caller
/// destroys `amount` held by the authority.
pub fn burn_tokens(
    config: &KernelConfig,
    burn_record: &mut BurnRecord,
    authority: &Pubkey,
    amount: u64,
    now: i64,
) -> (r: Result<TokenMovement, KernelError>)
    ensures
        match r {
            Ok(m) => {
                &&& burn_error(*config, *old(burn_record), *authority, amount) is None
                &&& *final(burn_record) == (BurnRecord {
                    total_burned: (old(burn_record).total_burned + amount) as u64,
                    burn_count: if old(burn_record).burn_count == u64::MAX {
                        u64::MAX
                    } else {
                        (old(burn_record).burn_count + 1) as u64
                    },
                    last_burn_time: now,
                    ..*old(burn_record)
                })
                &&& m == (TokenMovement::Burn { from: Custody::Authority, amount })
            },
            Err(e) => {
                &&& burn_error(*config, *old(burn_record), *authority, amount) == Some(e)
                &&& *final(burn_record) == *old(burn_record)
            },
        },
{
    if !config.authority.same_as(authority) {
        return Err(KernelError::NotAuthority);
    }
    if amount == 0 {
        return Err(KernelError::ZeroAmount);
    }
    let new_total = match burn_record.total_burned.checked_add(amount) {
        Some(v) => v,
        None => return Err(KernelError::MathOverflow),
    };
    burn_record.total_burned = new_total;
    burn_record.burn_count = burn_record.burn_count.saturating_add(1);
    burn_record.last_burn_time = now;
    Ok(TokenMovement::Burn { from: Custody::Authority, amount })
}

/// First check that refuses registering an airdrop to `n` recipients, if any.
pub open spec fn airdrop_error(c: KernelConfig, s: AirdropState, authority: Pubkey, n: nat, amount_per_recipient: u64) -> Option<KernelError> {
    if c.authority@ != authority@ {
        Some(KernelError::NotAuthority)
    } else if n > MAX_AIRDROP_RECIPIENTS {
        Some(KernelError::TooManyRecipients)
    } else if amount_per_recipient == 0 {
        Some(KernelError::ZeroAmount)
    } else if n * amount_per_recipient > u64::MAX || s.total_airdropped + n * amount_per_recipient
        > u64::MAX || s.recipient_count + n > u64::MAX {
        Some(KernelError::MathOverflow)
    } else {
        None
    }
}

/// Registers an airdrop of `amount_per_recipient` to each of `recipients`.
///
/// Accounting only: no tokens move and no balance changes; the transfers
/// themselves are made separately. At most 50 recipients per call. On
/// success the airdropped total grows by `recipients.len() *
/// amount_per_recipient` and the recipient count by `recipients.len()`.
pub fn airdrop(
    config: &KernelConfig,
    airdrop_state: &mut AirdropState,
    authority: &Pubkey,
    recipients: &Vec<Pubkey>,
    amount_per_recipient: u64,
) -> (r: Result<(), KernelError>)
    ensures
        match r {
            Ok(()) => {
                &&& airdrop_error(
                    *config,
                    *old(airdrop_state),
                    *authority,
                    recipients.len() as nat,
                    amount_per_recipient,
                ) is None
                &&& *final(airdrop_state) == (AirdropState {
                    total_airdropped: (old(airdrop_state).total_airdropped + recipients.len()
                        * amount_per_recipient) as u64,
                    recipient_count: (old(airdrop_state).recipient_count
                        + recipients.len()) as u64,
                    ..*old(airdrop_state)
                })
            },
            Err(e) => {
                &&& airdrop_error(
                    *config,
                    *old(airdrop_state),
                    *authority,
                    recipients.len() as nat,
                    amount_per_recipient,
                ) == Some(e)
                &&& *final(airdrop_state) == *old(airdrop_state)
            },
        },
{
    if !config.authority.same_as(authority) {
        return Err(KernelError::NotAuthority);
    }
    let n = recipients.len();
    if n > MAX_AIRDROP_RECIPIENTS {
        return Err(KernelError::TooManyRecipients);
    }
    if amount_per_recipient == 0 {
        return Err(KernelError::ZeroAmount);
    }
    let total = match (n as u64).checked_mul(amount_per_recipient) {
        Some(t) => t,
        None => return Err(KernelError::MathOverflow),
    };
    let new_total = match airdrop_state.total_airdropped.checked_add(total) {
        Some(t) => t,
        None => return Err(KernelError::MathOverflow),
    };
    let new_count = match airdrop_state.recipient_count.checked_add(n as u64) {
        Some(c) => c,
        None => return Err(KernelError::MathOverflow),
    };
    airdrop_state.total_airdropped = new_total;
    airdrop_state.recipient_count = new_count;
    Ok(())
}

} // verus!
