//! The sybil risk model: risk-scored views of wallets, wallet clusters and
//! funding sources, and the rule that denies cooldown bypasses to risky wallets.
use vstd::prelude::*;

use crate::error::ForecastError;
use crate::math::{apply_bps, bps_of};
use crate::state::{AccountId, COOLDOWN_DURATION_HOURS, ForecastConfig, UserWinStreak};
use crate::streak::sat_add;

verus! {

#[derive(Clone, Copy, Debug, PartialEq, Eq, Structural)]
pub enum SybilFlag {
    HighRiskScore,
    SuspiciousFunding,
    CoordinatedTiming,
    SimilarPositionSizes,
    SharedFundingSources,
    CooldownAvoidance,
    ClusterBehavior,
    ManualFlag,
}

#[derive(Clone, Copy, Debug, PartialEq, Eq, Structural)]
pub enum ClusterRiskLevel {
    Low,
    Medium,
    High,
    Critical,
}

/// Behavioural, funding and network analysis of one wallet.
#[derive(Clone, Debug)]
pub struct WalletClusterAnalysis {
    pub wallet: AccountId,
    /// The one cluster the wallet is suspected to belong to, if any.
    pub cluster_id: Option<u64>,
    /// Risk in basis points.
    pub risk_score: u16,
    pub creation_timestamp: i64,
    pub last_analysis_timestamp: i64,
    pub total_deposits: u32,
    pub total_epochs_participated: u32,
    pub average_position_size: u64,
    pub position_size_variance: u64,
    pub timing_pattern_score: u16,
    pub win_rate: u16,
    pub primary_funding_source: Option<AccountId>,
    pub funding_source_count: u8,
    pub funding_source_entropy: u16,
    pub total_funded_amount: u64,
    pub average_funding_amount: u64,
    pub last_funding_timestamp: i64,
    pub connected_wallets_count: u8,
    /// At most `MAX_CONNECTED_WALLETS`.
    pub connected_wallets: Vec<AccountId>,
    /// At most `MAX_SHARED_FUNDING_SOURCES`.
    pub shared_funding_sources: Vec<AccountId>,
    pub interaction_frequency: u16,
    pub most_active_hour: u8,
    pub activity_concentration: u16,
    pub deposit_timing_predictability: u16,
    pub cooldown_avoidance_score: u16,
    pub is_flagged: bool,
    pub is_verified_human: bool,
    pub auto_flagged_reason: Option<SybilFlag>,
    pub requires_manual_review: bool,
    pub last_manual_review: i64,
    pub bump: u8,
}

/// A group of wallets suspected to be controlled by one actor.
#[derive(Clone, Debug)]
pub struct SybilCluster {
    pub cluster_id: u64,
    pub creation_timestamp: i64,
    pub last_updated: i64,
    /// At most `MAX_CLUSTER_SIZE`.
    pub member_wallets: Vec<AccountId>,
    pub member_count: u8,
    pub confidence_score: u16,
    pub shared_funding_sources: Vec<AccountId>,
    pub similar_timing_patterns: bool,
    pub similar_position_sizes: bool,
    pub coordinated_behavior_detected: bool,
    pub risk_level: ClusterRiskLevel,
    pub total_cluster_stake: u64,
    pub average_member_stake: u64,
    pub cluster_win_rate: u16,
    pub is_restricted: bool,
    pub restriction_reason: Option<String>,
    pub restriction_timestamp: i64,
    pub requires_kyc: bool,
    pub bump: u8,
}

/// Distribution pattern of one funding source.
#[derive(Clone, Debug)]
pub struct FundingSourceAnalysis {
    pub funding_source: AccountId,
    pub analysis_timestamp: i64,
    pub funded_wallets: Vec<AccountId>,
    pub funded_wallet_count: u16,
    pub total_distributed_amount: u64,
    pub average_distribution_amount: u64,
    pub distribution_variance: u64,
    pub distribution_frequency: u16,
    pub distribution_timing_pattern: u16,
    pub burst_distribution_count: u8,
    pub last_burst_timestamp: i64,
    pub sybil_risk_score: u16,
    pub exchange_withdrawal_pattern: bool,
    pub mixer_usage_detected: bool,
    pub new_wallet_funding_ratio: u16,
    pub is_flagged: bool,
    pub is_whitelisted: bool,
    pub requires_monitoring: bool,
    pub bump: u8,
}

/// Thresholds and enforcement switches of the risk model.
#[derive(Clone, Copy, Debug)]
pub struct SybilDetectionConfig {
    pub authority: AccountId,
    pub is_active: bool,
    pub high_risk_threshold: u16,
    pub auto_flag_threshold: u16,
    pub cluster_confidence_threshold: u16,
    pub min_wallets_for_cluster: u8,
    pub max_cluster_size: u8,
    pub analysis_lookback_hours: u32,
    pub funding_analysis_depth: u8,
    pub timing_similarity_threshold: u16,
    pub position_size_similarity_threshold: u16,
    pub funding_concentration_threshold: u16,
    pub win_rate_similarity_threshold: u16,
    pub enable_auto_restrictions: bool,
    pub require_manual_review_high_risk: bool,
    pub enable_progressive_restrictions: bool,
    pub cluster_stake_limit_multiplier: u16,
    pub restrict_high_risk_bypass: bool,
    pub require_cluster_cooldown: bool,
    pub cluster_cooldown_multiplier: u16,
    pub bump: u8,
}

pub const HIGH_RISK_THRESHOLD: u16 = 7000;
pub const AUTO_FLAG_THRESHOLD: u16 = 8000;
pub const CRITICAL_RISK_THRESHOLD: u16 = 9000;
pub const CLUSTER_CONFIDENCE_THRESHOLD: u16 = 7500;
pub const MIN_WALLETS_FOR_CLUSTER: u8 = 3;
pub const MAX_CLUSTER_SIZE: u8 = 50;
pub const ANALYSIS_LOOKBACK_HOURS: u32 = 168;
pub const FUNDING_ANALYSIS_DEPTH: u8 = 3;
pub const TIMING_SIMILARITY_THRESHOLD: u16 = 8000;
pub const POSITION_SIZE_SIMILARITY_THRESHOLD: u16 = 9000;
pub const FUNDING_CONCENTRATION_THRESHOLD: u16 = 8500;
pub const WIN_RATE_SIMILARITY_THRESHOLD: u16 = 500;
pub const BURST_DISTRIBUTION_THRESHOLD: u8 = 10;
pub const NEW_WALLET_FUNDING_THRESHOLD: u16 = 8000;
pub const DISTRIBUTION_TIMING_REGULARITY_THRESHOLD: u16 = 9000;
pub const CLUSTER_STAKE_LIMIT_MULTIPLIER: u16 = 5000;
pub const CLUSTER_COOLDOWN_MULTIPLIER: u16 = 2;
pub const HIGH_RISK_BYPASS_BLOCK_THRESHOLD: u16 = 8000;
/// Capacity of a wallet's list of connected wallets.
pub const MAX_CONNECTED_WALLETS: usize = 20;
/// Capacity of a list of shared funding sources.
pub const MAX_SHARED_FUNDING_SOURCES: usize = 10;

impl SybilCluster {
    /// The member list is within the cluster size limit and its count is kept.
    pub open spec fn wf(&self) -> bool {
        &&& self.member_wallets@.len() <= MAX_CLUSTER_SIZE
        &&& self.member_count == self.member_wallets@.len()
    }
}

impl SybilDetectionConfig {
    /// Whether a wallet with this risk score is denied a cooldown bypass: the
    /// model is active, restricts high-risk bypasses, and the score reaches the
    /// blocking threshold.
    pub open spec fn blocks(&self, risk_score: u16) -> bool {
        self.is_active && self.restrict_high_risk_bypass && risk_score
            >= HIGH_RISK_BYPASS_BLOCK_THRESHOLD
    }

    pub fn blocks_cooldown_bypass(&self, risk_score: u16) -> (r: bool)
        ensures
            r == self.blocks(risk_score),
    {
        self.is_active && self.restrict_high_risk_bypass && risk_score
            >= HIGH_RISK_BYPASS_BLOCK_THRESHOLD
    }

    /// Length in seconds of a cooldown taken by a whole cluster: the individual
    /// cooldown times the cluster multiplier when clusters cool down together.
    pub fn cluster_cooldown_seconds(&self) -> (r: i64)
        ensures
            r == COOLDOWN_DURATION_HOURS * 3600 * (if self.require_cluster_cooldown {
                self.cluster_cooldown_multiplier as int
            } else {
                1
            }),
    {
        let base: i64 = COOLDOWN_DURATION_HOURS * 3600;
        if self.require_cluster_cooldown {
            base * self.cluster_cooldown_multiplier as i64
        } else {
            base
        }
    }
}

/// Lets a user keep playing despite a suggested cooldown for a flat fee of
/// `cooldown_bypass_fee_bps` of `stake`, unless the risk model blocks the
/// wallet. Returns the fee, which the caller collects, and adds it to the
/// user's bypass total; on refusal nothing has changed.
pub fn pay_cooldown_bypass(
    config: &ForecastConfig,
    sybil_config: &SybilDetectionConfig,
    wallet: &WalletClusterAnalysis,
    streak: &mut UserWinStreak,
    stake: u64,
) -> (r: Result<u64, ForecastError>)
    requires
        config.wf(),
    ensures
        r is Err <==> sybil_config.blocks(wallet.risk_score),
        match r {
            Ok(fee) => {
                &&& fee == bps_of(stake as int, config.cooldown_bypass_fee_bps as int)
                &&& *final(streak) == (UserWinStreak {
                    total_bypass_fees_paid: sat_add(
                        old(streak).total_bypass_fees_paid as int,
                        fee as int,
                        u64::MAX as int,
                    ) as u64,
                    ..*old(streak)
                })
            },
            Err(e) => e == ForecastError::CooldownBypassBlocked && *final(streak) == *old(streak),
        },
{
    if sybil_config.blocks_cooldown_bypass(wallet.risk_score) {
        return Err(ForecastError::CooldownBypassBlocked);
    }
    let fee = apply_bps(stake, config.cooldown_bypass_fee_bps);
    streak.pay_bypass_fee(fee);
    Ok(fee)
}

} // verus!
