//! Accounts, enums and policy constants of the prediction market.
use vstd::prelude::*;

verus! {

/// A 32-byte account address (a wallet, an oracle source, a vault).
#[derive(Clone, Copy, Debug)]
pub struct AccountId {
    pub bytes: [u8; 32],
}

impl AccountId {
    pub open spec fn key(&self) -> Seq<u8> {
        self.bytes@
    }
}

impl PartialEq for AccountId {
    fn eq(&self, other: &AccountId) -> (r: bool) {
        let mut i: usize = 0;
        while i < 32
            invariant
                0 <= i <= 32,
                forall|j: int| 0 <= j < i ==> self.bytes@[j] == other.bytes@[j],
            decreases 32 - i,
        {
            if self.bytes[i] != other.bytes[i] {
                return false;
            }
            i = i + 1;
        }
        assert(self.bytes@ =~= other.bytes@);
        true
    }
}

impl vstd::std_specs::cmp::PartialEqSpecImpl for AccountId {
    open spec fn obeys_eq_spec() -> bool {
        true
    }

    open spec fn eq_spec(&self, other: &AccountId) -> bool {
        self.bytes@ == other.bytes@
    }
}

impl AccountId {
    /// The all-zero address, which a freshly allocated account holds.
    pub fn zeroed() -> (r: AccountId)
        ensures
            forall|i: int| 0 <= i < 32 ==> r.bytes@[i] == 0,
    {
        AccountId { bytes: [0u8; 32] }
    }
}

/// The side a user stakes on.
#[derive(Clone, Copy, Debug, PartialEq, Eq, Structural)]
pub enum Position {
    Up,
    Down,
}

/// How an epoch settled.
#[derive(Clone, Copy, Debug, PartialEq, Eq, Structural)]
pub enum EpochOutcome {
    Up,
    Down,
    /// The close price stayed inside the buffer around the start price.
    Neutral,
}

/// Where a deposit falls within its epoch.
#[derive(Clone, Copy, Debug, PartialEq, Eq, Structural)]
pub enum DepositTiming {
    /// First quarter of the epoch.
    EarlyBird,
    Normal,
    /// From the middle of the epoch up to the deposit cutoff.
    Late,
}

/// One price report from an oracle source.
#[derive(Clone, Copy, Debug)]
pub struct OraclePrice {
    pub price: u64,
    pub timestamp: i64,
    pub source: AccountId,
    pub confidence: u64,
}

/// One betting round.
#[derive(Clone, Debug)]
pub struct ForecastEpoch {
    pub epoch_id: u64,
    pub start_timestamp: i64,
    pub end_timestamp: i64,
    pub start_price: u64,
    pub close_price: u64,
    pub up_vault_total: u64,
    pub down_vault_total: u64,
    pub total_amount: u64,
    pub is_resolved: bool,
    pub winning_position: Option<EpochOutcome>,
    pub fee_collected: u64,
    /// Reports collected after the end of the epoch, at most `MAX_ORACLE_REPORTS`.
    pub oracle_prices: Vec<OraclePrice>,
    pub resolution_timestamp: i64,
    pub is_circuit_breaker_triggered: bool,
    pub suspicious_activity_detected: bool,
    pub deposit_cutoff_timestamp: i64,
    pub early_deposit_count: u32,
    pub late_deposit_count: u32,
    /// Deposits accepted so far, whatever their timing.
    pub deposit_count: u32,
    pub total_early_bird_bonuses: u64,
    pub total_late_penalties: u64,
}

/// One user's stake in one epoch.
#[derive(Clone, Copy, Debug)]
pub struct UserPosition {
    pub user: AccountId,
    pub epoch_id: u64,
    pub position: Position,
    pub amount: u64,
    pub timestamp: i64,
    pub has_claimed: bool,
    pub claimed_at: i64,
    pub is_early_bird: bool,
    pub is_late_deposit: bool,
    /// Bonus (early bird) or penalty (late deposit) attached to the position.
    pub temporal_bonus: u64,
    pub commitment_end_time: i64,
    pub applied_fee_bps: u16,
    pub bypass_cooldown_fee_paid: u64,
}

/// A user's win streak and cooldown state, kept across epochs.
#[derive(Clone, Copy, Debug)]
pub struct UserWinStreak {
    pub user: AccountId,
    pub consecutive_wins: u8,
    pub total_wins: u32,
    pub last_win_epoch: u64,
    pub current_fee_level: u16,
    pub total_progressive_fees_paid: u64,
    pub total_bypass_fees_paid: u64,
    pub voluntary_cooldown_count: u8,
    pub last_activity_epoch: u64,
    pub cooldown_suggested: bool,
    pub cooldown_active: bool,
    pub cooldown_start_timestamp: i64,
    pub cooldown_end_timestamp: i64,
    pub auto_reset_eligible: bool,
    pub bump: u8,
}

/// Market-wide configuration, changed only by its authority.
#[derive(Clone, Copy, Debug)]
pub struct ForecastConfig {
    pub authority: AccountId,
    pub current_epoch: u64,
    pub epoch_duration: i64,
    pub fee_bps: u16,
    pub price_buffer_bps: u16,
    pub treasury: AccountId,
    pub bonding_vault: AccountId,
    pub token_mint: AccountId,
    pub is_active: bool,
    pub max_position_size: u64,
    pub max_vault_imbalance_bps: u16,
    pub price_resolution_delay: i64,
    pub require_multiple_oracles: bool,
    pub min_oracle_sources: u8,
    pub max_oracle_deviation_bps: u16,
    pub deposit_cutoff_hours: i64,
    pub early_bird_bonus_bps: u16,
    pub late_deposit_penalty_bps: u16,
    pub commitment_period_hours: i64,
    pub enable_temporal_bonuses: bool,
    pub base_treasury_fee_bps: u16,
    pub max_progressive_fee_bps: u16,
    pub consecutive_win_threshold: u8,
    pub cooldown_suggestion_threshold: u8,
    pub cooldown_bypass_fee_bps: u16,
    pub enable_progressive_fees: bool,
    pub bump: u8,
}

pub const DEFAULT_EPOCH_DURATION: i64 = 8 * 60 * 60;
pub const DEFAULT_FEE_BPS: u16 = 500;
pub const MAX_FEE_BPS: u16 = 1000;
pub const DEFAULT_PRICE_BUFFER_BPS: u16 = 50;
pub const MAX_PRICE_BUFFER_BPS: u16 = 500;
/// Longest epoch that a market may be configured with: seven days.
pub const MAX_EPOCH_DURATION: i64 = 7 * 24 * 60 * 60;

pub const MIN_POSITION_SIZE: u64 = 1_000_000;
pub const MAX_POSITION_SIZE: u64 = 1_000_000_000_000;
pub const MAX_VAULT_IMBALANCE_BPS: u16 = 8000;
pub const PRICE_RESOLUTION_DELAY: i64 = 300;
pub const MAX_ORACLE_DEVIATION_BPS: u16 = 1000;
pub const MIN_ORACLE_SOURCES: u8 = 2;
/// Capacity of an epoch's list of oracle reports.
pub const MAX_ORACLE_REPORTS: usize = 10;

pub const DEFAULT_DEPOSIT_CUTOFF_HOURS: i64 = 4;
pub const MIN_DEPOSIT_CUTOFF_HOURS: i64 = 2;
pub const MAX_DEPOSIT_CUTOFF_HOURS: i64 = 6;
pub const EARLY_BIRD_BONUS_BPS: u16 = 150;
pub const LATE_DEPOSIT_PENALTY_BPS: u16 = 300;
pub const COMMITMENT_PERIOD_HOURS: i64 = 4;

pub const DEFAULT_BASE_TREASURY_FEE_BPS: u16 = 500;
pub const MAX_PROGRESSIVE_FEE_BPS: u16 = 5000;
pub const CONSECUTIVE_WIN_THRESHOLD: u8 = 2;
pub const COOLDOWN_SUGGESTION_THRESHOLD: u8 = 2;
pub const COOLDOWN_BYPASS_FEE_BPS: u16 = 500;
pub const COOLDOWN_DURATION_HOURS: i64 = 8;
pub const AUTO_RESET_EPOCHS: u64 = 2;

pub const WIN_3_FEE_BPS: u16 = 1000;
pub const WIN_4_FEE_BPS: u16 = 2000;
pub const WIN_5_FEE_BPS: u16 = 3000;
pub const WIN_6_FEE_BPS: u16 = 4000;
pub const WIN_7_PLUS_FEE_BPS: u16 = 5000;

/// Share of a losing vault that is burned at settlement: 8%.
pub const BURN_BPS: u16 = 800;
/// Percentage of the protocol fee that goes to the treasury; the rest goes to the bonding vault.
pub const TREASURY_SHARE_PERCENT: u64 = 80;
/// Largest share, in percent, that one depositor may hold of the side it stakes
/// on; holding exactly this share is allowed.
pub const MAX_SINGLE_POSITION_PERCENT: u64 = 50;
/// Percentage of all stake held by one side above which an epoch is flagged.
pub const EXTREME_IMBALANCE_PERCENT: u64 = 95;
/// Percentage of all deposits made late above which an epoch is flagged.
pub const LATE_DEPOSIT_GAMING_PERCENT: u32 = 40;

impl ForecastConfig {
    /// The configuration invariant: every rate is a basis-point fraction within its
    /// cap, and the epoch length and deposit cutoff are within their bounds.
    pub open spec fn wf(&self) -> bool {
        &&& self.fee_bps <= MAX_FEE_BPS
        &&& self.price_buffer_bps <= MAX_PRICE_BUFFER_BPS
        &&& 0 < self.epoch_duration <= MAX_EPOCH_DURATION
        &&& MIN_DEPOSIT_CUTOFF_HOURS <= self.deposit_cutoff_hours <= MAX_DEPOSIT_CUTOFF_HOURS
        &&& self.early_bird_bonus_bps <= 10000
        &&& self.late_deposit_penalty_bps <= 10000
        &&& self.base_treasury_fee_bps <= 10000
        &&& self.max_progressive_fee_bps <= 10000
        &&& self.cooldown_bypass_fee_bps <= 10000
    }

    /// Whether the configuration invariant holds.
    pub fn is_well_formed(&self) -> (r: bool)
        ensures
            r == self.wf(),
    {
        self.fee_bps <= MAX_FEE_BPS && self.price_buffer_bps <= MAX_PRICE_BUFFER_BPS
            && self.epoch_duration > 0 && self.epoch_duration <= MAX_EPOCH_DURATION
            && self.deposit_cutoff_hours >= MIN_DEPOSIT_CUTOFF_HOURS && self.deposit_cutoff_hours
            <= MAX_DEPOSIT_CUTOFF_HOURS && self.early_bird_bonus_bps <= 10000
            && self.late_deposit_penalty_bps <= 10000 && self.base_treasury_fee_bps <= 10000
            && self.max_progressive_fee_bps <= 10000 && self.cooldown_bypass_fee_bps <= 10000
    }
}

impl ForecastEpoch {
    /// The epoch invariant: the vault totals add up, time runs forward, a resolved
    /// epoch has an outcome, and the report list stays within its capacity.
    pub open spec fn wf(&self) -> bool {
        &&& self.up_vault_total + self.down_vault_total == self.total_amount
        &&& self.start_timestamp < self.end_timestamp
        &&& self.is_resolved ==> self.winning_position is Some
        &&& self.oracle_prices@.len() <= MAX_ORACLE_REPORTS
    }

    /// Whether the epoch invariant holds.
    pub fn is_well_formed(&self) -> (r: bool)
        ensures
            r == self.wf(),
    {
        self.up_vault_total as u128 + self.down_vault_total as u128 == self.total_amount as u128
            && self.start_timestamp < self.end_timestamp && (!self.is_resolved
            || self.winning_position.is_some()) && self.oracle_prices.len() <= MAX_ORACLE_REPORTS
    }

    /// Stake held on one side.
    pub open spec fn side_total(&self, side: Position) -> u64 {
        match side {
            Position::Up => self.up_vault_total,
            Position::Down => self.down_vault_total,
        }
    }
}

impl UserPosition {
    /// Whether this position's amount is part of the stake on its side of `epoch`.
    pub open spec fn within(&self, epoch: ForecastEpoch) -> bool {
        self.amount <= epoch.side_total(self.position)
    }

    pub fn is_within(&self, epoch: &ForecastEpoch) -> (r: bool)
        ensures
            r == self.within(*epoch),
    {
        match self.position {
            Position::Up => self.amount <= epoch.up_vault_total,
            Position::Down => self.amount <= epoch.down_vault_total,
        }
    }
}

} // verus!
