use kernel_token::{
    cancel_authority_transfer, cancel_fee_proposal, execute_authority_transfer,
    execute_fee_update, initialize, propose_authority_transfer, propose_fee_update, set_paused,
    update_fees, KernelConfig, KernelError, Pubkey, TIMELOCK_DURATION,
};

fn key(b: u8) -> Pubkey {
    Pubkey::new_from_array([b; 32])
}

fn pool() -> KernelConfig {
    initialize(key(1), key(2), key(3), key(4), 200, 200, 100, 7, 8).unwrap()
}

#[test]
fn initialize_sets_fresh_pool() {
    let config = pool();
    assert_eq!(config.authority, key(1));
    assert_eq!(config.token_mint, key(2));
    assert_eq!(config.staking_vault, key(3));
    assert_eq!(config.reflection_pool, key(4));
    assert_eq!(
        (config.reflection_share_bps, config.lp_share_bps, config.burn_share_bps),
        (200, 200, 100)
    );
    assert_eq!(config.total_staked, 0);
    assert_eq!(config.accumulated_per_share, 0);
    assert!(!config.is_paused);
    assert_eq!((config.bump, config.vault_bump), (7, 8));
}

#[test]
fn initialize_rejects_bad_fee_sum() {
    assert_eq!(
        initialize(key(1), key(2), key(3), key(4), 200, 200, 101, 0, 0).unwrap_err(),
        KernelError::InvalidFeeConfig
    );
    assert_eq!(
        initialize(key(1), key(2), key(3), key(4), u16::MAX, u16::MAX, 502, 0, 0).unwrap_err(),
        KernelError::InvalidFeeConfig
    );
    assert!(initialize(key(1), key(2), key(3), key(4), 0, 0, 500, 0, 0).is_ok());
}

#[test]
fn fee_timelock_scenario() {
    let mut config = pool();
    let auth = key(1);
    let mut proposal = propose_fee_update(&config, &auth, 300, 100, 100, 0, 3).unwrap();
    assert!(!proposal.executed && !proposal.cancelled);
    assert_eq!(proposal.proposed_at, 0);
    assert_eq!(
        execute_fee_update(&mut config, &mut proposal, &auth, 3600),
        Err(KernelError::TimelockNotExpired)
    );
    assert_eq!(config.reflection_share_bps, 200);
    assert_eq!(
        execute_fee_update(&mut config, &mut proposal, &auth, TIMELOCK_DURATION - 1),
        Err(KernelError::TimelockNotExpired)
    );
    assert_eq!(execute_fee_update(&mut config, &mut proposal, &auth, 86400), Ok(()));
    assert_eq!(
        (config.reflection_share_bps, config.lp_share_bps, config.burn_share_bps),
        (300, 100, 100)
    );
    assert!(proposal.executed);
}

#[test]
fn fee_second_execution_fails() {
    let mut config = pool();
    let auth = key(1);
    let mut proposal = propose_fee_update(&config, &auth, 300, 100, 100, 0, 3).unwrap();
    execute_fee_update(&mut config, &mut proposal, &auth, 90000).unwrap();
    assert_eq!(
        execute_fee_update(&mut config, &mut proposal, &auth, 200000),
        Err(KernelError::ProposalAlreadyExecuted)
    );
    assert_eq!(
        cancel_fee_proposal(&config, &mut proposal, &auth),
        Err(KernelError::ProposalAlreadyExecuted)
    );
}

#[test]
fn fee_cancel_scenario() {
    let mut config = pool();
    let auth = key(1);
    let mut proposal = propose_fee_update(&config, &auth, 300, 100, 100, 0, 3).unwrap();
    assert_eq!(cancel_fee_proposal(&config, &mut proposal, &auth), Ok(()));
    assert!(proposal.cancelled);
    assert_eq!(
        execute_fee_update(&mut config, &mut proposal, &auth, 200000),
        Err(KernelError::ProposalCancelled)
    );
    assert_eq!(config.reflection_share_bps, 200);
}

#[test]
fn fee_proposal_errors() {
    let mut config = pool();
    assert_eq!(
        propose_fee_update(&config, &key(5), 300, 100, 100, 0, 0).unwrap_err(),
        KernelError::NotAuthority
    );
    assert_eq!(
        propose_fee_update(&config, &key(1), 300, 100, 99, 0, 0).unwrap_err(),
        KernelError::InvalidFeeConfig
    );
    let mut proposal = propose_fee_update(&config, &key(1), 300, 100, 100, 0, 0).unwrap();
    assert_eq!(
        execute_fee_update(&mut config, &mut proposal, &key(5), 100000),
        Err(KernelError::NotAuthority)
    );
    assert_eq!(
        cancel_fee_proposal(&config, &mut proposal, &key(5)),
        Err(KernelError::NotAuthority)
    );
    // a record edited by hand to an invalid sum never reaches the pool
    proposal.burn_share_bps = 0;
    assert_eq!(
        execute_fee_update(&mut config, &mut proposal, &key(1), 100000),
        Err(KernelError::InvalidFeeConfig)
    );
    assert!(!proposal.executed);
}

#[test]
fn timelock_with_extreme_times() {
    let mut config = pool();
    let auth = key(1);
    let mut proposal = propose_fee_update(&config, &auth, 300, 100, 100, i64::MAX, 0).unwrap();
    assert_eq!(
        execute_fee_update(&mut config, &mut proposal, &auth, i64::MIN),
        Err(KernelError::TimelockNotExpired)
    );
    let mut early = propose_fee_update(&config, &auth, 300, 100, 100, i64::MIN, 0).unwrap();
    assert_eq!(execute_fee_update(&mut config, &mut early, &auth, i64::MAX), Ok(()));
}

#[test]
fn emergency_fee_update_needs_distinct_guardian() {
    let mut config = pool();
    assert_eq!(
        update_fees(&mut config, &key(1), &key(1), 250, 150, 100),
        Err(KernelError::GuardianRequired)
    );
    assert_eq!(
        update_fees(&mut config, &key(5), &key(6), 250, 150, 100),
        Err(KernelError::NotAuthority)
    );
    assert_eq!(
        update_fees(&mut config, &key(1), &key(6), 250, 150, 101),
        Err(KernelError::InvalidFeeConfig)
    );
    assert_eq!(update_fees(&mut config, &key(1), &key(6), 250, 150, 100), Ok(()));
    assert_eq!(
        (config.reflection_share_bps, config.lp_share_bps, config.burn_share_bps),
        (250, 150, 100)
    );
}

#[test]
fn set_paused_is_authority_only() {
    let mut config = pool();
    assert_eq!(set_paused(&mut config, &key(5), true), Err(KernelError::NotAuthority));
    assert!(!config.is_paused);
    set_paused(&mut config, &key(1), true).unwrap();
    assert!(config.is_paused);
    set_paused(&mut config, &key(1), false).unwrap();
    assert!(!config.is_paused);
}

#[test]
fn authority_transfer_lifecycle() {
    let mut config = pool();
    let auth = key(1);
    let next = key(20);
    assert_eq!(
        propose_authority_transfer(&config, &key(5), next, 0, 0).unwrap_err(),
        KernelError::NotAuthority
    );
    let mut transfer = propose_authority_transfer(&config, &auth, next, 100, 4).unwrap();
    assert_eq!(transfer.new_authority, next);
    assert_eq!(
        execute_authority_transfer(&mut config, &mut transfer, &auth, 100 + 86399),
        Err(KernelError::TimelockNotExpired)
    );
    assert_eq!(execute_authority_transfer(&mut config, &mut transfer, &auth, 100 + 86400), Ok(()));
    assert_eq!(config.authority, next);
    assert!(transfer.executed);
    // the old authority no longer passes the checks
    assert_eq!(
        execute_authority_transfer(&mut config, &mut transfer, &auth, 300000),
        Err(KernelError::NotAuthority)
    );
    assert_eq!(
        cancel_authority_transfer(&config, &mut transfer, &next),
        Err(KernelError::AuthorityTransferAlreadyExecuted)
    );
}

#[test]
fn authority_transfer_cancelled_never_executes() {
    let mut config = pool();
    let auth = key(1);
    let mut transfer = propose_authority_transfer(&config, &auth, key(20), 0, 0).unwrap();
    assert_eq!(cancel_authority_transfer(&config, &mut transfer, &key(5)), Err(KernelError::NotAuthority));
    assert_eq!(cancel_authority_transfer(&config, &mut transfer, &auth), Ok(()));
    assert_eq!(
        execute_authority_transfer(&mut config, &mut transfer, &auth, 10_000_000),
        Err(KernelError::AuthorityTransferCancelled)
    );
    assert_eq!(config.authority, auth);
}

#[test]
fn authority_transfer_to_self_executes_once() {
    let mut config = pool();
    let auth = key(1);
    let mut transfer = propose_authority_transfer(&config, &auth, auth, 0, 0).unwrap();
    execute_authority_transfer(&mut config, &mut transfer, &auth, 86400).unwrap();
    assert_eq!(
        execute_authority_transfer(&mut config, &mut transfer, &auth, 86400),
        Err(KernelError::AuthorityTransferAlreadyExecuted)
    );
}

#[test]
fn error_messages() {
    assert_eq!(KernelError::ZeroAmount.message(), "Amount must be greater than zero");
    assert_eq!(KernelError::TooManyRecipients.message(), "Too many recipients (max 50)");
}
