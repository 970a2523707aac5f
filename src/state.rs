use vstd::prelude::*;
use crate::pubkey::Pubkey;

verus! {

/// Sum of the three fee shares that every accepted fee configuration has.
pub const TOTAL_FEE_BPS: u32 = 500;

/// Whether three fee shares in basis points make an accepted configuration.
pub open spec fn fee_shares_valid(reflection_bps: u16, lp_bps: u16, burn_bps: u16) -> bool {
    reflection_bps as int + lp_bps as int + burn_bps as int == TOTAL_FEE_BPS as int
}

/// Checks that three fee shares sum to exactly 500 basis points.
pub fn fee_shares_sum_ok(reflection_bps: u16, lp_bps: u16, burn_bps: u16) -> (r: bool)
    ensures
        r == fee_shares_valid(reflection_bps, lp_bps, burn_bps),
{
    reflection_bps as u32 + lp_bps as u32 + burn_bps as u32 == TOTAL_FEE_BPS
}

/// Pool-wide configuration and totals.
#[derive(Clone, Copy, Debug)]
pub struct KernelConfig {
    pub authority: Pubkey,
    pub token_mint: Pubkey,
    pub staking_vault: Pubkey,
    pub reflection_pool: Pubkey,
    pub reflection_share_bps: u16,
    pub lp_share_bps: u16,
    pub burn_share_bps: u16,
    pub total_staked: u64,
    pub total_reflections_distributed: u64,
    pub pending_reflections: u64,
    pub accumulated_per_share: u128,
    pub is_paused: bool,
    pub bump: u8,
    pub vault_bump: u8,
}

impl KernelConfig {
    /// The fee shares of the pool sum to 500 basis points.
    pub open spec fn fees_valid(&self) -> bool {
        fee_shares_valid(self.reflection_share_bps, self.lp_share_bps, self.burn_share_bps)
    }
}

/// One participant's position in a pool.
#[derive(Clone, Copy, Debug)]
pub struct UserStake {
    pub owner: Pubkey,
    pub staked_amount: u64,
    pub stake_time: i64,
    pub pending_rewards: u64,
    pub total_claimed: u64,
    pub reward_debt: u128,
    pub bump: u8,
}

impl UserStake {
    /// An empty position for `owner`, as created on first use.
    pub fn new(owner: Pubkey, bump: u8) -> (r: UserStake)
        ensures
            r.owner == owner,
            r.staked_amount == 0,
            r.stake_time == 0,
            r.pending_rewards == 0,
            r.total_claimed == 0,
            r.reward_debt == 0,
            r.bump == bump,
    {
        UserStake {
            owner,
            staked_amount: 0,
            stake_time: 0,
            pending_rewards: 0,
            total_claimed: 0,
            reward_debt: 0,
            bump,
        }
    }
}

/// Running totals of burned tokens.
#[derive(Clone, Copy, Debug)]
pub struct BurnRecord {
    pub total_burned: u64,
    pub burn_count: u64,
    pub last_burn_time: i64,
    pub bump: u8,
}

impl BurnRecord {
    /// A record with no burns, as created on first use.
    pub fn new(bump: u8) -> (r: BurnRecord)
        ensures
            r.total_burned == 0,
            r.burn_count == 0,
            r.last_burn_time == 0,
            r.bump == bump,
    {
        BurnRecord { total_burned: 0, burn_count: 0, last_burn_time: 0, bump }
    }
}

/// Running totals of registered airdrop campaigns.
#[derive(Clone, Copy, Debug)]
pub struct AirdropState {
    pub total_airdropped: u64,
    pub recipient_count: u64,
    pub bump: u8,
}

impl AirdropState {
    /// A state with no campaigns, as created on first use.
    pub fn new(bump: u8) -> (r: AirdropState)
        ensures
            r.total_airdropped == 0,
            r.recipient_count == 0,
            r.bump == bump,
    {
        AirdropState { total_airdropped: 0, recipient_count: 0, bump }
    }
}

/// A timelocked proposal to change the fee shares.
#[derive(Clone, Copy, Debug)]
pub struct FeeProposal {
    pub proposer: Pubkey,
    pub reflection_share_bps: u16,
    pub lp_share_bps: u16,
    pub burn_share_bps: u16,
    pub proposed_at: i64,
    pub executed: bool,
    pub cancelled: bool,
    pub bump: u8,
}

/// A timelocked proposal to hand the pool authority to another identity.
#[derive(Clone, Copy, Debug)]
pub struct PendingAuthorityTransfer {
    pub proposer: Pubkey,
    pub new_authority: Pubkey,
    pub proposed_at: i64,
    pub executed: bool,
    pub cancelled: bool,
    pub bump: u8,
}

/// Funds earmarked for liquidity deployment outside the ledger.
#[derive(Clone, Copy, Debug)]
pub struct LPVault {
    pub authority: Pubkey,
    pub token_mint: Pubkey,
    pub total_allocated: u64,
    pub total_deployed: u64,
    pub pending_deployment: u64,
    pub last_deployment_time: i64,
    pub bump: u8,
    pub vault_token_bump: u8,
}

impl LPVault {
    /// Everything allocated is either deployed or still pending.
    pub open spec fn balanced(&self) -> bool {
        self.total_allocated as int == self.total_deployed as int + self.pending_deployment as int
    }
}

/// Record of one liquidity deployment made outside the ledger.
#[derive(Clone, Copy, Debug)]
pub struct LPDeployment {
    pub pool_address: Pubkey,
    pub kernel_amount: u64,
    pub lp_tokens_received: u64,
    pub deployed_at: i64,
    pub withdrawn: bool,
    pub bump: u8,
}

/// Why an operation was refused.
#[derive(Clone, Copy, Debug, PartialEq, Eq, Structural)]
pub enum KernelError {
    InvalidFeeConfig,
    ZeroAmount,
    InsufficientStake,
    NothingToClaim,
    NotOwner,
    NotAuthority,
    TooManyRecipients,
    ProgramPaused,
    TimelockNotExpired,
    ProposalAlreadyExecuted,
    ProposalCancelled,
    InsufficientLPFunds,
    AuthorityTransferAlreadyPending,
    AuthorityTransferAlreadyExecuted,
    AuthorityTransferCancelled,
    /// The emergency path needs a guardian distinct from the authority.
    GuardianRequired,
    /// A counter or product would leave its integer range.
    MathOverflow,
}

impl KernelError {
    /// Human-readable description of the error.
    pub fn message(&self) -> (r: &'static str) {
        match self {
            KernelError::InvalidFeeConfig => "Invalid fee configuration - must total 500 bps (5%)",
            KernelError::ZeroAmount => "Amount must be greater than zero",
            KernelError::InsufficientStake => "Insufficient staked balance",
            KernelError::NothingToClaim => "Nothing to claim - keep staking!",
            KernelError::NotOwner => "You don't own this stake",
            KernelError::NotAuthority => "Not authorized - Colonel Kernel says no!",
            KernelError::TooManyRecipients => "Too many recipients (max 50)",
            KernelError::ProgramPaused => "Program is paused",
            KernelError::TimelockNotExpired => "Timelock period not expired - wait 24 hours",
            KernelError::ProposalAlreadyExecuted => "Proposal already executed",
            KernelError::ProposalCancelled => "Proposal was cancelled",
            KernelError::InsufficientLPFunds => "Insufficient funds in LP vault",
            KernelError::AuthorityTransferAlreadyPending => "Authority transfer already pending",
            KernelError::AuthorityTransferAlreadyExecuted => "Authority transfer already executed",
            KernelError::AuthorityTransferCancelled => "Authority transfer was cancelled",
            KernelError::GuardianRequired => "A distinct guardian must co-sign",
            KernelError::MathOverflow => "Arithmetic overflow",
        }
    }
}

/// A holding area that value moves between.
#[derive(Clone, Copy, Debug, PartialEq, Eq, Structural)]
pub enum Custody {
    /// The acting participant's own token account.
    Participant,
    /// The administrative authority's token account.
    Authority,
    /// Pool-owned custody of staked principal.
    StakingVault,
    /// Pool-owned custody of deposited rewards.
    ReflectionPool,
    /// Pool-owned custody of liquidity allocations.
    LpVault,
}

/// Value movement that an accepted operation asks the host to carry out.
#[derive(Clone, Copy, Debug, PartialEq, Eq, Structural)]
pub enum TokenMovement {
    /// Move `amount` from one holding area to another.
    Transfer { from: Custody, to: Custody, amount: u64 },
    /// Destroy `amount` held in `from`.
    Burn { from: Custody, amount: u64 },
}

} // verus!
