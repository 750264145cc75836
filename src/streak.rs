//! Win streaks, the progressive fee schedule and cooldowns.
use vstd::prelude::*;

use crate::state::{
    AUTO_RESET_EPOCHS, COOLDOWN_DURATION_HOURS, COOLDOWN_SUGGESTION_THRESHOLD, ForecastConfig,
    UserWinStreak, WIN_3_FEE_BPS, WIN_4_FEE_BPS, WIN_5_FEE_BPS, WIN_6_FEE_BPS, WIN_7_PLUS_FEE_BPS,
};

verus! {

/// `a + b`, capped at `max`.
pub open spec fn sat_add(a: int, b: int, max: int) -> int {
    if a + b > max {
        max
    } else {
        a + b
    }
}

/// The fee schedule: the base fee up to two consecutive wins, then 10%, 20%,
/// 30%, 40% and 50% from the seventh win on; the base fee throughout when the
/// progressive schedule is off.
pub open spec fn progressive_fee_bps(consecutive_wins: u8, base_fee_bps: u16, enabled: bool) -> u16 {
    if !enabled {
        base_fee_bps
    } else if consecutive_wins <= 2 {
        base_fee_bps
    } else if consecutive_wins == 3 {
        WIN_3_FEE_BPS
    } else if consecutive_wins == 4 {
        WIN_4_FEE_BPS
    } else if consecutive_wins == 5 {
        WIN_5_FEE_BPS
    } else if consecutive_wins == 6 {
        WIN_6_FEE_BPS
    } else {
        WIN_7_PLUS_FEE_BPS
    }
}

/// Length of a manual cooldown, in seconds.
pub open spec fn cooldown_seconds() -> int {
    COOLDOWN_DURATION_HOURS * 60 * 60
}

impl UserWinStreak {
    /// Fee rate that applies to this user's next winnings.
    pub fn calculate_progressive_fee(&self, config: &ForecastConfig) -> (r: u16)
        ensures
            r == progressive_fee_bps(
                self.consecutive_wins,
                config.base_treasury_fee_bps,
                config.enable_progressive_fees,
            ),
    {
        if !config.enable_progressive_fees {
            return config.base_treasury_fee_bps;
        }
        match self.consecutive_wins {
            0 | 1 | 2 => config.base_treasury_fee_bps,
            3 => WIN_3_FEE_BPS,
            4 => WIN_4_FEE_BPS,
            5 => WIN_5_FEE_BPS,
            6 => WIN_6_FEE_BPS,
            _ => WIN_7_PLUS_FEE_BPS,
        }
    }

    /// Records a win in `epoch_id`: the streak grows, a cooldown is suggested from
    /// the second win in a row on, and the user no longer counts as inactive.
    pub fn update_on_win(&mut self, epoch_id: u64, progressive_fee_paid: u64)
        ensures
            final(self).consecutive_wins == sat_add(old(self).consecutive_wins as int, 1, u8::MAX as int),
            final(self).total_wins == sat_add(old(self).total_wins as int, 1, u32::MAX as int),
            final(self).total_progressive_fees_paid == sat_add(
                old(self).total_progressive_fees_paid as int,
                progressive_fee_paid as int,
                u64::MAX as int,
            ),
            *final(self) == (UserWinStreak {
                consecutive_wins: final(self).consecutive_wins,
                total_wins: final(self).total_wins,
                total_progressive_fees_paid: final(self).total_progressive_fees_paid,
                last_win_epoch: epoch_id,
                last_activity_epoch: epoch_id,
                cooldown_suggested: final(self).consecutive_wins >= COOLDOWN_SUGGESTION_THRESHOLD,
                auto_reset_eligible: false,
                ..*old(self)
            }),
    {
        self.consecutive_wins = self.consecutive_wins.saturating_add(1);
        self.total_wins = self.total_wins.saturating_add(1);
        self.last_win_epoch = epoch_id;
        self.last_activity_epoch = epoch_id;
        self.total_progressive_fees_paid = self.total_progressive_fees_paid.saturating_add(
            progressive_fee_paid,
        );
        self.cooldown_suggested = self.consecutive_wins >= COOLDOWN_SUGGESTION_THRESHOLD;
        self.auto_reset_eligible = false;
    }

    /// Records a loss in `epoch_id`: the streak, the fee level and the cooldown
    /// suggestion reset.
    pub fn update_on_loss(&mut self, epoch_id: u64)
        ensures
            *final(self) == (UserWinStreak {
                consecutive_wins: 0,
                current_fee_level: 0,
                cooldown_suggested: false,
                last_activity_epoch: epoch_id,
                auto_reset_eligible: false,
                ..*old(self)
            }),
    {
        self.consecutive_wins = 0;
        self.current_fee_level = 0;
        self.cooldown_suggested = false;
        self.last_activity_epoch = epoch_id;
        self.auto_reset_eligible = false;
    }

    /// Starts an eight-hour cooldown at `current_timestamp` and resets the streak.
    pub fn start_manual_cooldown(&mut self, current_timestamp: i64)
        requires
            current_timestamp + cooldown_seconds() <= i64::MAX,
        ensures
            *final(self) == (UserWinStreak {
                cooldown_active: true,
                cooldown_start_timestamp: current_timestamp,
                cooldown_end_timestamp: (current_timestamp + cooldown_seconds()) as i64,
                cooldown_suggested: false,
                voluntary_cooldown_count: sat_add(
                    old(self).voluntary_cooldown_count as int,
                    1,
                    u8::MAX as int,
                ) as u8,
                consecutive_wins: 0,
                current_fee_level: 0,
                auto_reset_eligible: false,
                ..*old(self)
            }),
    {
        self.cooldown_active = true;
        self.cooldown_start_timestamp = current_timestamp;
        self.cooldown_end_timestamp = current_timestamp + COOLDOWN_DURATION_HOURS * 60 * 60;
        self.cooldown_suggested = false;
        self.voluntary_cooldown_count = self.voluntary_cooldown_count.saturating_add(1);
        self.consecutive_wins = 0;
        self.current_fee_level = 0;
        self.auto_reset_eligible = false;
    }

    /// Ends a cooldown; the streak was already reset when it started.
    pub fn complete_cooldown(&mut self)
        ensures
            *final(self) == (UserWinStreak {
                cooldown_active: false,
                cooldown_start_timestamp: 0,
                cooldown_end_timestamp: 0,
                ..*old(self)
            }),
    {
        self.cooldown_active = false;
        self.cooldown_start_timestamp = 0;
        self.cooldown_end_timestamp = 0;
    }

    /// Resets the streak of a user who has been inactive for two epochs or more,
    /// and says whether it did.
    pub fn check_auto_reset(&mut self, current_epoch: u64) -> (r: bool)
        ensures
            r == (current_epoch >= old(self).last_activity_epoch + AUTO_RESET_EPOCHS),
            r ==> *final(self) == (UserWinStreak {
                consecutive_wins: 0,
                current_fee_level: 0,
                cooldown_suggested: false,
                auto_reset_eligible: true,
                ..*old(self)
            }),
            !r ==> *final(self) == *old(self),
    {
        let epochs_inactive = current_epoch.saturating_sub(self.last_activity_epoch);
        if epochs_inactive >= AUTO_RESET_EPOCHS {
            self.consecutive_wins = 0;
            self.current_fee_level = 0;
            self.cooldown_suggested = false;
            self.auto_reset_eligible = true;
            return true;
        }
        false
    }

    pub fn is_cooldown_complete(&self, current_timestamp: i64) -> (r: bool)
        ensures
            r == (self.cooldown_active && current_timestamp >= self.cooldown_end_timestamp),
    {
        self.cooldown_active && current_timestamp >= self.cooldown_end_timestamp
    }

    /// Adds a paid bypass fee to the running total; the suggestion stays.
    pub fn pay_bypass_fee(&mut self, bypass_fee: u64)
        ensures
            *final(self) == (UserWinStreak {
                total_bypass_fees_paid: sat_add(
                    old(self).total_bypass_fees_paid as int,
                    bypass_fee as int,
                    u64::MAX as int,
                ) as u64,
                ..*old(self)
            }),
    {
        self.total_bypass_fees_paid = self.total_bypass_fees_paid.saturating_add(bypass_fee);
    }

    pub fn is_cooldown_suggested(&self) -> (r: bool)
        ensures
            r == self.cooldown_suggested,
    {
        self.cooldown_suggested
    }

    /// Sets the current fee level from the schedule.
    pub fn update_fee_level(&mut self, config: &ForecastConfig)
        ensures
            *final(self) == (UserWinStreak {
                current_fee_level: progressive_fee_bps(
                    old(self).consecutive_wins,
                    config.base_treasury_fee_bps,
                    config.enable_progressive_fees,
                ),
                ..*old(self)
            }),
    {
        self.current_fee_level = self.calculate_progressive_fee(config);
    }
}

} // verus!
