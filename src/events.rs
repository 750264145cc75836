//! Records of what the market did, handed to the caller to publish.
use vstd::prelude::*;

use crate::state::{AccountId, DepositTiming, EpochOutcome, Position};
use crate::sybil::{ClusterRiskLevel, SybilFlag};

verus! {

#[derive(Clone, Copy, Debug)]
pub struct EpochStarted {
    pub epoch_id: u64,
    pub start_price: u64,
    pub start_timestamp: i64,
    pub end_timestamp: i64,
    pub resolution_timestamp: i64,
    pub deposit_cutoff_timestamp: i64,
}

#[derive(Clone, Copy, Debug)]
pub struct ForecastDeposit {
    pub user: AccountId,
    pub epoch_id: u64,
    pub amount: u64,
    pub position: Position,
    pub timestamp: i64,
    pub vault_imbalance_bps: u64,
    pub deposit_timing: DepositTiming,
    pub temporal_adjustment: u64,
    pub is_bonus: bool,
}

#[derive(Clone, Copy, Debug)]
pub struct EpochResolved {
    pub epoch_id: u64,
    pub close_price: u64,
    pub winning_position: EpochOutcome,
    pub up_vault_total: u64,
    pub down_vault_total: u64,
    pub fee_collected: u64,
    pub price_buffer_bps: u16,
    pub oracle_sources_used: u8,
    pub suspicious_activity_detected: bool,
    pub timestamp: i64,
}

#[derive(Clone, Copy, Debug)]
pub struct RewardsClaimed {
    pub user: AccountId,
    pub epoch_id: u64,
    pub original_stake: u64,
    pub base_winnings: u64,
    pub temporal_adjustment: u64,
    pub progressive_fee: u64,
    pub total_claim: u64,
    pub applied_fee_bps: u16,
    pub consecutive_wins: u8,
    pub is_early_bird: bool,
    pub is_late_deposit: bool,
    pub cooldown_suggested: bool,
    pub timestamp: i64,
}

#[derive(Clone, Copy, Debug)]
pub struct ProgressiveFeeApplied {
    pub user: AccountId,
    pub epoch_id: u64,
    pub consecutive_wins: u8,
    pub base_fee_bps: u16,
    pub applied_fee_bps: u16,
    pub fee_amount: u64,
    pub winnings_before_fee: u64,
    pub winnings_after_fee: u64,
    pub cooldown_suggested: bool,
    pub timestamp: i64,
}

#[derive(Clone, Copy, Debug)]
pub struct VoluntaryCooldownTaken {
    pub user: AccountId,
    pub epoch_id: u64,
    pub consecutive_wins_before: u8,
    pub fee_level_before: u16,
    pub cooldown_count: u8,
    pub timestamp: i64,
}

#[derive(Clone, Copy, Debug)]
pub struct CooldownBypassFeePaid {
    pub user: AccountId,
    pub epoch_id: u64,
    pub consecutive_wins: u8,
    pub bypass_fee_bps: u16,
    pub bypass_fee_amount: u64,
    pub total_bypass_fees_paid: u64,
    pub timestamp: i64,
}

#[derive(Clone, Copy, Debug)]
pub struct ManualCooldownStarted {
    pub user: AccountId,
    pub epoch_id: u64,
    pub consecutive_wins_before: u8,
    pub cooldown_start_timestamp: i64,
    pub cooldown_end_timestamp: i64,
    pub cooldown_count: u8,
    pub timestamp: i64,
}

#[derive(Clone, Copy, Debug)]
pub struct CooldownCompleted {
    pub user: AccountId,
    pub epoch_id: u64,
    pub cooldown_duration_hours: i64,
    pub was_manual: bool,
    pub timestamp: i64,
}

#[derive(Clone, Copy, Debug)]
pub struct AutoResetTriggered {
    pub user: AccountId,
    pub epoch_id: u64,
    pub consecutive_wins_before: u8,
    pub epochs_inactive: u64,
    pub timestamp: i64,
}

#[derive(Clone, Copy, Debug)]
pub struct TreasuryFee {
    pub epoch: u64,
    pub amount: u64,
}

#[derive(Clone, Copy, Debug)]
pub struct BondingFee {
    pub epoch: u64,
    pub amount: u64,
}

#[derive(Clone, Debug)]
pub struct SybilClusterDetected {
    pub cluster_id: u64,
    pub member_count: u8,
    pub confidence_score: u16,
    pub risk_level: ClusterRiskLevel,
    pub detection_reason: String,
    pub total_cluster_stake: u64,
    pub timestamp: i64,
}

#[derive(Clone, Copy, Debug)]
pub struct WalletFlagged {
    pub wallet: AccountId,
    pub risk_score: u16,
    pub flag_reason: SybilFlag,
    pub cluster_id: Option<u64>,
    pub requires_manual_review: bool,
    pub timestamp: i64,
}

#[derive(Clone, Copy, Debug)]
pub struct FundingSourceFlagged {
    pub funding_source: AccountId,
    pub funded_wallet_count: u16,
    pub sybil_risk_score: u16,
    pub total_distributed_amount: u64,
    pub timestamp: i64,
}

#[derive(Clone, Debug)]
pub struct ClusterRestrictionApplied {
    pub cluster_id: u64,
    pub restriction_type: String,
    pub affected_wallets: u8,
    pub timestamp: i64,
}

#[derive(Clone, Debug)]
pub struct CooldownBypassBlocked {
    pub user: AccountId,
    pub epoch_id: u64,
    pub risk_score: u16,
    pub cluster_id: Option<u64>,
    pub block_reason: String,
    pub timestamp: i64,
}

} // verus!
