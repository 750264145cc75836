//! The epoch's own rules: its phases, deposit timing, outcome, imbalance,
//! oracle consensus and the suspicious-activity detector.
use vstd::prelude::*;

use crate::math::{
    apply_bps, bps_of, deviation_exceeds, exceeds_deviation, imbalance_of, median_of,
    median_price,
};
use crate::state::{
    DepositTiming, EpochOutcome, ForecastConfig, ForecastEpoch, LATE_DEPOSIT_GAMING_PERCENT,
    EXTREME_IMBALANCE_PERCENT, OraclePrice,
};

verus! {

/// The timing category of a deposit made at `t` into an epoch running from
/// `start` to `end` whose deposits close at `cutoff`.
pub open spec fn deposit_timing(t: int, start: int, end: int, cutoff: int) -> DepositTiming {
    let duration = end - start;
    if t <= start + duration / 4 {
        DepositTiming::EarlyBird
    } else if t >= start + duration / 2 && t < cutoff {
        DepositTiming::Late
    } else {
        DepositTiming::Normal
    }
}

/// The bonus or penalty for a deposit of `amount` with the given timing, and
/// whether it is a bonus.
pub open spec fn temporal_adjustment(
    amount: u64,
    timing: DepositTiming,
    config: ForecastConfig,
) -> (int, bool) {
    if !config.enable_temporal_bonuses {
        (0, false)
    } else {
        match timing {
            DepositTiming::EarlyBird => (bps_of(amount as int, config.early_bird_bonus_bps as int), true),
            DepositTiming::Late => (
                bps_of(amount as int, config.late_deposit_penalty_bps as int),
                false,
            ),
            DepositTiming::Normal => (0, false),
        }
    }
}

/// The price band half-width around `start_price`.
pub open spec fn buffer_amount(start_price: u64, buffer_bps: u16) -> int {
    bps_of(start_price as int, buffer_bps as int)
}

/// How an epoch that opened at `start_price` settles at `close_price`.
pub open spec fn outcome_for(start_price: u64, close_price: u64, buffer_bps: u16) -> EpochOutcome {
    let buffer = buffer_amount(start_price, buffer_bps);
    let lower = if start_price >= buffer {
        start_price - buffer
    } else {
        0
    };
    if close_price > start_price + buffer {
        EpochOutcome::Up
    } else if close_price < lower {
        EpochOutcome::Down
    } else {
        EpochOutcome::Neutral
    }
}

/// The larger of two vault totals.
pub open spec fn larger_of(a: u64, b: u64) -> u64 {
    if a >= b {
        a
    } else {
        b
    }
}

/// Whether more than 40% of all deposits so far were late.
pub open spec fn temporal_gaming(late_count: u32, deposit_count: u32) -> bool {
    deposit_count > 0 && late_count * 100 > LATE_DEPOSIT_GAMING_PERCENT * deposit_count
}

/// Whether one side holds more than 95% of all stake.
pub open spec fn extreme_imbalance(up: u64, down: u64, total: u64) -> bool {
    total > 0 && larger_of(up, down) * 100 > EXTREME_IMBALANCE_PERCENT * total
}

/// The prices of a list of oracle reports.
pub open spec fn report_prices(reports: Seq<OraclePrice>) -> Seq<u64> {
    reports.map_values(|p: OraclePrice| p.price)
}

/// The consensus price of a list of reports: their median, provided there are at
/// least `min_sources` of them and none lies more than `max_deviation_bps` away
/// from it.
pub open spec fn oracle_consensus(
    reports: Seq<OraclePrice>,
    max_deviation_bps: u16,
    min_sources: u8,
) -> Option<u64> {
    let prices = report_prices(reports);
    if prices.len() < min_sources || prices.len() == 0 {
        None
    } else {
        let median = median_price(prices);
        if exists|i: int|
            0 <= i < prices.len() && #[trigger] deviation_exceeds(
                prices[i],
                median,
                max_deviation_bps,
            ) {
            None
        } else {
            Some(median)
        }
    }
}

impl ForecastEpoch {
    /// The stake on the losing side once the epoch has an outcome; zero before,
    /// and zero for a neutral outcome.
    pub open spec fn losing_total(&self) -> int {
        match self.winning_position {
            Some(EpochOutcome::Up) => self.down_vault_total as int,
            Some(EpochOutcome::Down) => self.up_vault_total as int,
            _ => 0,
        }
    }

    /// The stake on the winning side once the epoch has an outcome; both sides
    /// for a neutral outcome, zero before.
    pub open spec fn winning_total(&self) -> int {
        match self.winning_position {
            Some(EpochOutcome::Up) => self.up_vault_total as int,
            Some(EpochOutcome::Down) => self.down_vault_total as int,
            Some(EpochOutcome::Neutral) => self.up_vault_total + self.down_vault_total,
            None => 0,
        }
    }

    pub fn is_active(&self, current_time: i64) -> (r: bool)
        ensures
            r == (self.start_timestamp <= current_time && current_time < self.end_timestamp),
    {
        current_time >= self.start_timestamp && current_time < self.end_timestamp
    }

    pub fn can_accept_deposits(&self, current_time: i64) -> (r: bool)
        ensures
            r == (self.start_timestamp <= current_time && current_time
                < self.deposit_cutoff_timestamp && !self.is_circuit_breaker_triggered),
    {
        current_time >= self.start_timestamp && current_time < self.deposit_cutoff_timestamp
            && !self.is_circuit_breaker_triggered
    }

    pub fn can_be_resolved(&self, current_time: i64) -> (r: bool)
        ensures
            r == (!self.is_resolved && current_time >= self.resolution_timestamp
                && !self.is_circuit_breaker_triggered),
    {
        !self.is_resolved && current_time >= self.resolution_timestamp
            && !self.is_circuit_breaker_triggered
    }

    /// Classifies a deposit made at `deposit_time`: a function of the time and of
    /// the epoch's start, end and cutoff alone.
    pub fn get_deposit_timing_category(&self, deposit_time: i64) -> (r: DepositTiming)
        requires
            self.start_timestamp <= self.end_timestamp,
        ensures
            r == deposit_timing(
                deposit_time as int,
                self.start_timestamp as int,
                self.end_timestamp as int,
                self.deposit_cutoff_timestamp as int,
            ),
    {
        let start = self.start_timestamp as i128;
        let duration: i128 = self.end_timestamp as i128 - start;
        let early_bird_cutoff: i128 = start + duration / 4;
        let late_deposit_start: i128 = start + duration / 2;
        let t = deposit_time as i128;
        if t <= early_bird_cutoff {
            DepositTiming::EarlyBird
        } else if t >= late_deposit_start && deposit_time < self.deposit_cutoff_timestamp {
            DepositTiming::Late
        } else {
            DepositTiming::Normal
        }
    }

    /// The bonus (`true`) or penalty (`false`) that a deposit of `amount` earns.
    pub fn calculate_temporal_adjustment(
        &self,
        amount: u64,
        timing: DepositTiming,
        config: &ForecastConfig,
    ) -> (r: (u64, bool))
        requires
            config.wf(),
        ensures
            (r.0 as int, r.1) == temporal_adjustment(amount, timing, *config),
            r.0 <= amount,
    {
        if !config.enable_temporal_bonuses {
            return (0, false);
        }
        match timing {
            DepositTiming::EarlyBird => (apply_bps(amount, config.early_bird_bonus_bps), true),
            DepositTiming::Late => (apply_bps(amount, config.late_deposit_penalty_bps), false),
            DepositTiming::Normal => (0, false),
        }
    }

    /// Whether more than 40% of all deposits so far were late.
    pub fn detect_temporal_gaming(&self) -> (r: bool)
        ensures
            r == temporal_gaming(self.late_deposit_count, self.deposit_count),
    {
        let all = self.deposit_count as u64;
        assert(LATE_DEPOSIT_GAMING_PERCENT as u64 * all <= 40 * (u32::MAX as u64)) by (
        nonlinear_arith)
            requires
                LATE_DEPOSIT_GAMING_PERCENT == 40,
                all <= u32::MAX,
        ;
        all > 0 && self.late_deposit_count as u64 * 100 > LATE_DEPOSIT_GAMING_PERCENT as u64 * all
    }

    /// Up above the band around the start price, Down below it, Neutral inside it.
    pub fn determine_outcome(&self, close_price: u64, buffer_bps: u16) -> (r: EpochOutcome)
        ensures
            r == outcome_for(self.start_price, close_price, buffer_bps),
    {
        let start = self.start_price as u128;
        assert(start * (buffer_bps as int) <= start * 65535) by (nonlinear_arith)
            requires
                buffer_bps <= 65535,
                start >= 0,
        ;
        let buffer: u128 = (start * buffer_bps as u128) / 10000;
        let upper: u128 = start + buffer;
        let lower: u128 = if start >= buffer {
            start - buffer
        } else {
            0
        };
        if close_price as u128 > upper {
            EpochOutcome::Up
        } else if (close_price as u128) < lower {
            EpochOutcome::Down
        } else {
            EpochOutcome::Neutral
        }
    }

    /// Whether the larger vault holds more than `max_imbalance_bps` of the total.
    pub fn check_vault_imbalance(&self, max_imbalance_bps: u16) -> (r: bool)
        ensures
            r == (self.total_amount > 0 && imbalance_of(
                larger_of(self.up_vault_total, self.down_vault_total) as int,
                self.total_amount as int,
            ) > max_imbalance_bps as int),
    {
        if self.total_amount == 0 {
            return false;
        }
        let larger = if self.up_vault_total >= self.down_vault_total {
            self.up_vault_total
        } else {
            self.down_vault_total
        };
        let imbalance: u128 = (larger as u128 * 10000) / self.total_amount as u128;
        imbalance > max_imbalance_bps as u128
    }

    /// The consensus price of the collected reports, if there is one.
    pub fn validate_oracle_prices(&self, max_deviation_bps: u16, min_sources: u8) -> (r: Option<
        u64,
    >)
        ensures
            r == oracle_consensus(self.oracle_prices@, max_deviation_bps, min_sources),
    {
        let n = self.oracle_prices.len();
        if n < min_sources as usize || n == 0 {
            return None;
        }
        let mut prices: Vec<u64> = Vec::new();
        let mut i: usize = 0;
        while i < n
            invariant
                n == self.oracle_prices@.len(),
                i <= n,
                prices@ == report_prices(self.oracle_prices@.subrange(0, i as int)),
            decreases n - i,
        {
            prices.push(self.oracle_prices[i].price);
            proof {
                assert(self.oracle_prices@.subrange(0, i + 1) =~= self.oracle_prices@.subrange(
                    0,
                    i as int,
                ).push(self.oracle_prices@[i as int]));
                assert(prices@ =~= report_prices(self.oracle_prices@.subrange(0, i + 1)));
            }
            i = i + 1;
        }
        proof {
            assert(self.oracle_prices@.subrange(0, n as int) =~= self.oracle_prices@);
        }
        let median = median_of(&prices);
        let mut j: usize = 0;
        while j < n
            invariant
                n == prices@.len(),
                j <= n,
                prices@ == report_prices(self.oracle_prices@),
                median == median_price(prices@),
                forall|k: int| 0 <= k < j ==> !deviation_exceeds(prices@[k], median, max_deviation_bps),
            decreases n - j,
        {
            if exceeds_deviation(prices[j], median, max_deviation_bps) {
                return None;
            }
            j = j + 1;
        }
        Some(median)
    }

    /// Raises the suspicious-activity flag when one side holds more than 95% of
    /// the stake or more than 40% of all deposits were late; the flag stays raised.
    pub fn detect_suspicious_activity(&mut self) -> (r: bool)
        ensures
            *final(self) == (ForecastEpoch {
                suspicious_activity_detected: old(self).suspicious_activity_detected
                    || extreme_imbalance(
                    old(self).up_vault_total,
                    old(self).down_vault_total,
                    old(self).total_amount,
                ) || temporal_gaming(old(self).late_deposit_count, old(self).deposit_count),
                ..*old(self)
            }),
            r == final(self).suspicious_activity_detected,
    {
        let extreme = if self.total_amount > 0 {
            let larger = if self.up_vault_total >= self.down_vault_total {
                self.up_vault_total
            } else {
                self.down_vault_total
            };
            larger as u128 * 100 > EXTREME_IMBALANCE_PERCENT as u128 * self.total_amount as u128
        } else {
            false
        };
        let gaming = self.detect_temporal_gaming();
        if extreme || gaming {
            self.suspicious_activity_detected = true;
        }
        self.suspicious_activity_detected
    }

    pub fn get_losing_vault_total(&self) -> (r: u64)
        ensures
            r == self.losing_total(),
    {
        match self.winning_position {
            Some(EpochOutcome::Up) => self.down_vault_total,
            Some(EpochOutcome::Down) => self.up_vault_total,
            _ => 0,
        }
    }

    pub fn get_winning_vault_total(&self) -> (r: u64)
        requires
            self.up_vault_total + self.down_vault_total <= u64::MAX,
        ensures
            r == self.winning_total(),
    {
        match self.winning_position {
            Some(EpochOutcome::Up) => self.up_vault_total,
            Some(EpochOutcome::Down) => self.down_vault_total,
            Some(EpochOutcome::Neutral) => self.up_vault_total + self.down_vault_total,
            None => 0,
        }
    }
}

} // verus!
