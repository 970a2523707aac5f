use kernel_token::{
    airdrop, allocate_to_lp, burn_tokens, initialize, initialize_lp_vault, record_lp_deployment,
    set_paused, withdraw_from_lp_vault, AirdropState, BurnRecord, Custody, KernelConfig,
    KernelError, Pubkey, TokenMovement,
};

fn key(b: u8) -> Pubkey {
    Pubkey::new_from_array([b; 32])
}

fn pool() -> KernelConfig {
    initialize(key(1), key(2), key(3), key(4), 200, 200, 100, 7, 8).unwrap()
}

#[test]
fn lp_vault_bookkeeping() {
    let config = pool();
    let auth = key(1);
    assert_eq!(initialize_lp_vault(&config, &key(5), 0, 0).unwrap_err(), KernelError::NotAuthority);
    let mut vault = initialize_lp_vault(&config, &auth, 1, 2).unwrap();
    assert_eq!(vault.token_mint, key(2));
    assert_eq!(vault.total_allocated, 0);

    let m = allocate_to_lp(&config, &mut vault, &auth, 1000).unwrap();
    assert_eq!(m, TokenMovement::Transfer { from: Custody::Authority, to: Custody::LpVault, amount: 1000 });
    assert_eq!((vault.total_allocated, vault.pending_deployment), (1000, 1000));
    assert_eq!(vault.total_allocated, vault.total_deployed + vault.pending_deployment);

    let d = record_lp_deployment(&config, &mut vault, &auth, 600, 42, key(30), 77, 5).unwrap();
    assert_eq!(d.kernel_amount, 600);
    assert_eq!(d.lp_tokens_received, 42);
    assert_eq!(d.pool_address, key(30));
    assert_eq!(d.deployed_at, 77);
    assert!(!d.withdrawn);
    assert_eq!((vault.total_deployed, vault.pending_deployment), (600, 400));
    assert_eq!(vault.last_deployment_time, 77);
    assert_eq!(vault.total_allocated, vault.total_deployed + vault.pending_deployment);

    assert_eq!(
        record_lp_deployment(&config, &mut vault, &auth, 401, 0, key(30), 78, 5).unwrap_err(),
        KernelError::InsufficientLPFunds
    );
    assert_eq!(
        record_lp_deployment(&config, &mut vault, &auth, 0, 0, key(30), 78, 5).unwrap_err(),
        KernelError::ZeroAmount
    );
    assert_eq!(vault.pending_deployment, 400);
}

#[test]
fn lp_withdraw_works_while_paused() {
    let mut config = pool();
    let auth = key(1);
    let mut vault = initialize_lp_vault(&config, &auth, 1, 2).unwrap();
    allocate_to_lp(&config, &mut vault, &auth, 500).unwrap();
    set_paused(&mut config, &auth, true).unwrap();
    assert_eq!(
        withdraw_from_lp_vault(&config, &mut vault, &auth, 501),
        Err(KernelError::InsufficientLPFunds)
    );
    assert_eq!(withdraw_from_lp_vault(&config, &mut vault, &auth, 0), Err(KernelError::ZeroAmount));
    assert_eq!(withdraw_from_lp_vault(&config, &mut vault, &key(5), 1), Err(KernelError::NotAuthority));
    let m = withdraw_from_lp_vault(&config, &mut vault, &auth, 200).unwrap();
    assert_eq!(m, TokenMovement::Transfer { from: Custody::LpVault, to: Custody::Authority, amount: 200 });
    assert_eq!(vault.pending_deployment, 300);
    // allocation continues while paused too
    assert!(allocate_to_lp(&config, &mut vault, &auth, 1).is_ok());
}

#[test]
fn lp_allocate_errors() {
    let config = pool();
    let auth = key(1);
    let mut vault = initialize_lp_vault(&config, &auth, 1, 2).unwrap();
    assert_eq!(allocate_to_lp(&config, &mut vault, &auth, 0), Err(KernelError::ZeroAmount));
    assert_eq!(allocate_to_lp(&config, &mut vault, &key(5), 3), Err(KernelError::NotAuthority));
    vault.total_allocated = u64::MAX;
    assert_eq!(allocate_to_lp(&config, &mut vault, &auth, 1), Err(KernelError::MathOverflow));
}

#[test]
fn burn_counts_each_burn() {
    let config = pool();
    let auth = key(1);
    let mut record = BurnRecord::new(9);
    let m = burn_tokens(&config, &mut record, &auth, 250, 1000).unwrap();
    assert_eq!(m, TokenMovement::Burn { from: Custody::Authority, amount: 250 });
    burn_tokens(&config, &mut record, &auth, 50, 2000).unwrap();
    assert_eq!(record.total_burned, 300);
    assert_eq!(record.burn_count, 2);
    assert_eq!(record.last_burn_time, 2000);
    assert_eq!(burn_tokens(&config, &mut record, &auth, 0, 0), Err(KernelError::ZeroAmount));
    assert_eq!(burn_tokens(&config, &mut record, &key(5), 1, 0), Err(KernelError::NotAuthority));
    record.burn_count = u64::MAX;
    burn_tokens(&config, &mut record, &auth, 1, 3000).unwrap();
    assert_eq!(record.burn_count, u64::MAX);
    record.total_burned = u64::MAX;
    assert_eq!(burn_tokens(&config, &mut record, &auth, 1, 0), Err(KernelError::MathOverflow));
}

#[test]
fn airdrop_only_counts() {
    let config = pool();
    let auth = key(1);
    let mut state = AirdropState::new(3);
    let recipients: Vec<Pubkey> = (0..50u8).map(key).collect();
    assert_eq!(airdrop(&config, &mut state, &auth, &recipients, 10), Ok(()));
    assert_eq!(state.total_airdropped, 500);
    assert_eq!(state.recipient_count, 50);
    let too_many: Vec<Pubkey> = (0..51u8).map(key).collect();
    assert_eq!(airdrop(&config, &mut state, &auth, &too_many, 10), Err(KernelError::TooManyRecipients));
    assert_eq!(airdrop(&config, &mut state, &auth, &recipients, 0), Err(KernelError::ZeroAmount));
    assert_eq!(airdrop(&config, &mut state, &key(5), &recipients, 1), Err(KernelError::NotAuthority));
    assert_eq!(
        airdrop(&config, &mut state, &auth, &recipients, u64::MAX),
        Err(KernelError::MathOverflow)
    );
    assert_eq!((state.total_airdropped, state.recipient_count), (500, 50));
    assert_eq!(airdrop(&config, &mut state, &auth, &Vec::new(), 5), Ok(()));
    assert_eq!((state.total_airdropped, state.recipient_count), (500, 50));
}

#[test]
fn pubkey_equality_is_bytewise() {
    let mut bytes = [7u8; 32];
    let a = Pubkey::new_from_array(bytes);
    bytes[31] = 8;
    let b = Pubkey::new_from_array(bytes);
    assert!(a != b);
    assert!(!a.same_as(&b));
    assert_eq!(a, Pubkey::new_from_array([7u8; 32]));
    assert_eq!(b.to_bytes()[31], 8);
    assert_eq!(Pubkey::zeroed().to_bytes(), [0u8; 32]);
}

#[test]
fn lp_withdraw_keeps_vault_balanced() {
    let config = pool();
    let auth = key(1);
    let mut vault = initialize_lp_vault(&config, &auth, 1, 2).unwrap();
    allocate_to_lp(&config, &mut vault, &auth, 1000).unwrap();
    record_lp_deployment(&config, &mut vault, &auth, 300, 9, key(30), 5, 0).unwrap();
    assert_eq!(vault.total_allocated, vault.total_deployed + vault.pending_deployment);
    withdraw_from_lp_vault(&config, &mut vault, &auth, 250).unwrap();
    assert_eq!((vault.total_allocated, vault.total_deployed, vault.pending_deployment), (750, 300, 450));
    assert_eq!(vault.total_allocated, vault.total_deployed + vault.pending_deployment);
    withdraw_from_lp_vault(&config, &mut vault, &auth, 450).unwrap();
    assert_eq!((vault.total_allocated, vault.total_deployed, vault.pending_deployment), (300, 300, 0));
    assert_eq!(vault.total_allocated, vault.total_deployed + vault.pending_deployment);
    // an unbalanced vault whose allocated total is below the amount is refused
    vault.pending_deployment = 10;
    vault.total_allocated = 5;
    assert_eq!(withdraw_from_lp_vault(&config, &mut vault, &auth, 6), Err(KernelError::MathOverflow));
    assert_eq!((vault.total_allocated, vault.pending_deployment), (5, 10));
}
