//! Reward-accrual staking ledger with timelocked governance.
//!
//! Every operation validates access and state first, then describes the value
//! movement that the host must carry out, and leaves the records in their new
//! state. A caller that fails to carry out the movement discards the new
//! records, so an operation takes effect as a whole or not at all.
pub mod pubkey;
pub mod accumulator;
pub mod state;
pub mod staking;
pub mod timelock;
pub mod governance;
pub mod liquidity;
pub mod registry;
pub mod laws;

pub use accumulator::{
    calculate_pending_rewards, calculate_reward_debt, calculate_reward_per_share, PRECISION,
};
pub use governance::{
    cancel_authority_transfer, cancel_fee_proposal, execute_authority_transfer,
    execute_fee_update, initialize, propose_authority_transfer, propose_fee_update, set_paused,
    update_fees,
};
pub use liquidity::{
    allocate_to_lp, initialize_lp_vault, record_lp_deployment, withdraw_from_lp_vault,
};
pub use pubkey::Pubkey;
pub use registry::{airdrop, burn_tokens, MAX_AIRDROP_RECIPIENTS};
pub use staking::{claim_reflections, deposit_reflections, stake, unstake};
pub use state::{
    AirdropState, BurnRecord, Custody, FeeProposal, KernelConfig, KernelError, LPDeployment,
    LPVault, PendingAuthorityTransfer, TokenMovement, UserStake, TOTAL_FEE_BPS,
};
pub use timelock::{TimelockRejection, TIMELOCK_DURATION};
