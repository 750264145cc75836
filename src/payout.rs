//! Pari-mutuel payouts: the burn and protocol fee taken from a losing vault,
//! and what each position claims.
use vstd::prelude::*;

use crate::math::{apply_bps, bps_of};
use crate::state::{
    BURN_BPS, EpochOutcome, ForecastConfig, ForecastEpoch, Position, TREASURY_SHARE_PERCENT,
    UserPosition, UserWinStreak,
};
use crate::streak::progressive_fee_bps;

verus! {

/// Part of a losing vault that is burned.
pub open spec fn burn_amount(losing: int) -> int {
    bps_of(losing, BURN_BPS as int)
}

/// Protocol fee, taken from what is left of a losing vault after the burn.
pub open spec fn protocol_fee(losing: int, fee_bps: int) -> int {
    bps_of(losing - burn_amount(losing), fee_bps)
}

/// What remains of a losing vault for the winners.
pub open spec fn prize_pool(losing: int, fee_bps: int) -> int {
    losing - burn_amount(losing) - protocol_fee(losing, fee_bps)
}

/// Part of the protocol fee that goes to the treasury.
pub open spec fn treasury_share(fee: int) -> int {
    fee * TREASURY_SHARE_PERCENT as int / 100
}

/// Whether a stake on `side` wins under `outcome`.
pub open spec fn side_wins(outcome: EpochOutcome, side: Position) -> bool {
    (outcome == EpochOutcome::Up && side == Position::Up) || (outcome == EpochOutcome::Down
        && side == Position::Down)
}

/// How a losing vault is split at settlement.
#[derive(Clone, Copy, Debug, PartialEq, Eq, Structural)]
pub struct VaultSplit {
    pub burn_amount: u64,
    pub fee_amount: u64,
    pub treasury_share: u64,
    pub bonding_share: u64,
    pub prize_pool: u64,
}

/// The split of a losing vault of `losing` under a protocol fee of `fee_bps`.
pub open spec fn vault_split_of(losing: int, fee_bps: int) -> VaultSplit {
    let fee = protocol_fee(losing, fee_bps);
    VaultSplit {
        burn_amount: burn_amount(losing) as u64,
        fee_amount: fee as u64,
        treasury_share: treasury_share(fee) as u64,
        bonding_share: (fee - treasury_share(fee)) as u64,
        prize_pool: prize_pool(losing, fee_bps) as u64,
    }
}

/// Splits a losing vault: 8% burned, `fee_bps` of the rest as protocol fee
/// (80% to the treasury, the remainder to the bonding vault), the rest to the winners.
pub fn split_losing_vault(losing: u64, fee_bps: u16) -> (r: VaultSplit)
    requires
        fee_bps <= 10000,
    ensures
        r == vault_split_of(losing as int, fee_bps as int),
        r.burn_amount == burn_amount(losing as int),
        r.fee_amount == protocol_fee(losing as int, fee_bps as int),
        r.treasury_share == treasury_share(r.fee_amount as int),
        r.bonding_share == r.fee_amount - r.treasury_share,
        r.prize_pool == prize_pool(losing as int, fee_bps as int),
        r.burn_amount + r.fee_amount + r.prize_pool == losing,
{
    let burn = apply_bps(losing, BURN_BPS);
    let remaining = losing - burn;
    let fee = apply_bps(remaining, fee_bps);
    let treasury = ((fee as u128 * TREASURY_SHARE_PERCENT as u128) / 100) as u64;
    VaultSplit {
        burn_amount: burn,
        fee_amount: fee,
        treasury_share: treasury,
        bonding_share: fee - treasury,
        prize_pool: remaining - fee,
    }
}

impl UserPosition {
    /// Winnings over the stake under the flat fee: the position's share of the
    /// prize pool (the losing vault less the burn and the protocol fee), in
    /// proportion to its part of the winning vault, rounded down.
    pub open spec fn winnings(&self, epoch: ForecastEpoch, fee_bps: u16) -> int {
        if !epoch.is_resolved || epoch.winning_position is None {
            0
        } else {
            let outcome = epoch.winning_position->Some_0;
            let losing = epoch.losing_total();
            let winning = epoch.side_total(self.position) as int;
            if !side_wins(outcome, self.position) || winning == 0 || losing == 0 {
                0
            } else {
                prize_pool(losing, fee_bps as int) * self.amount / winning
            }
        }
    }

    /// Winnings under the progressive fee, the rate applied and the fee taken:
    /// the rate of the user's streak is charged on the position's proportional
    /// share of the whole losing vault.
    pub open spec fn progressive_winnings(
        &self,
        epoch: ForecastEpoch,
        streak: UserWinStreak,
        config: ForecastConfig,
    ) -> (int, int, int) {
        if !epoch.is_resolved || epoch.winning_position is None {
            (0, 0, 0)
        } else {
            let outcome = epoch.winning_position->Some_0;
            let losing = epoch.losing_total();
            let winning = epoch.side_total(self.position) as int;
            if !side_wins(outcome, self.position) || winning == 0 || losing == 0 {
                (0, 0, 0)
            } else {
                let share = losing * self.amount / winning;
                let rate = progressive_fee_bps(
                    streak.consecutive_wins,
                    config.base_treasury_fee_bps,
                    config.enable_progressive_fees,
                );
                let fee = bps_of(share, rate as int);
                (share - fee, rate as int, fee)
            }
        }
    }

    /// Whether this position lost: the epoch has a non-neutral outcome that its
    /// side does not match. A losing stake goes to the winners.
    pub open spec fn lost(&self, epoch: ForecastEpoch) -> bool {
        match epoch.winning_position {
            Some(o) => o != EpochOutcome::Neutral && !side_wins(o, self.position),
            None => false,
        }
    }

    /// Stake plus flat-fee winnings; the bare stake after a neutral outcome;
    /// nothing for a losing position.
    pub open spec fn total_claim(&self, epoch: ForecastEpoch, fee_bps: u16) -> int {
        if epoch.winning_position == Some(EpochOutcome::Neutral) {
            self.amount as int
        } else if self.lost(epoch) {
            0
        } else {
            self.amount + self.winnings(epoch, fee_bps)
        }
    }

    /// Stake plus progressive-fee winnings; the bare stake after a neutral
    /// outcome; nothing for a losing position.
    pub open spec fn total_claim_progressive(
        &self,
        epoch: ForecastEpoch,
        streak: UserWinStreak,
        config: ForecastConfig,
    ) -> int {
        if epoch.winning_position == Some(EpochOutcome::Neutral) {
            self.amount as int
        } else if self.lost(epoch) {
            0
        } else {
            self.amount + self.progressive_winnings(epoch, streak, config).0
        }
    }

    /// Whether this position lost its epoch.
    pub fn has_lost(&self, epoch: &ForecastEpoch) -> (r: bool)
        ensures
            r == self.lost(*epoch),
    {
        match epoch.winning_position {
            Some(EpochOutcome::Up) => self.position == Position::Down,
            Some(EpochOutcome::Down) => self.position == Position::Up,
            _ => false,
        }
    }

    /// Winnings over the stake under the flat fee `fee_bps`.
    pub fn calculate_winnings(&self, epoch: &ForecastEpoch, fee_bps: u16) -> (r: u64)
        requires
            fee_bps <= 10000,
            self.within(*epoch),
        ensures
            r == self.winnings(*epoch, fee_bps),
    {
        if !epoch.is_resolved || epoch.winning_position.is_none() {
            return 0;
        }
        let outcome = match epoch.winning_position {
            Some(o) => o,
            None => EpochOutcome::Neutral,
        };
        let won = match (outcome, self.position) {
            (EpochOutcome::Up, Position::Up) => true,
            (EpochOutcome::Down, Position::Down) => true,
            _ => false,
        };
        if !won {
            return 0;
        }
        let losing = epoch.get_losing_vault_total();
        let winning = match self.position {
            Position::Up => epoch.up_vault_total,
            Position::Down => epoch.down_vault_total,
        };
        if winning == 0 || losing == 0 {
            return 0;
        }
        let split = split_losing_vault(losing, fee_bps);
        let prize = split.prize_pool as u128;
        proof {
            lemma_share_bounded(prize as int, self.amount as int, winning as int);
            lemma_mul_fits_u128(prize as int, self.amount as int);
        }
        ((prize * self.amount as u128) / winning as u128) as u64
    }

    /// Net winnings, the fee rate and the fee amount under the progressive fee.
    pub fn calculate_winnings_with_progressive_fee(
        &self,
        epoch: &ForecastEpoch,
        win_streak: &UserWinStreak,
        config: &ForecastConfig,
    ) -> (r: (u64, u16, u64))
        requires
            config.wf(),
            self.within(*epoch),
        ensures
            (r.0 as int, r.1 as int, r.2 as int) == self.progressive_winnings(
                *epoch,
                *win_streak,
                *config,
            ),
    {
        if !epoch.is_resolved || epoch.winning_position.is_none() {
            return (0, 0, 0);
        }
        let outcome = match epoch.winning_position {
            Some(o) => o,
            None => EpochOutcome::Neutral,
        };
        let won = match (outcome, self.position) {
            (EpochOutcome::Up, Position::Up) => true,
            (EpochOutcome::Down, Position::Down) => true,
            _ => false,
        };
        if !won {
            return (0, 0, 0);
        }
        let losing = epoch.get_losing_vault_total();
        let winning = match self.position {
            Position::Up => epoch.up_vault_total,
            Position::Down => epoch.down_vault_total,
        };
        if winning == 0 || losing == 0 {
            return (0, 0, 0);
        }
        proof {
            lemma_share_bounded(losing as int, self.amount as int, winning as int);
            lemma_mul_fits_u128(losing as int, self.amount as int);
        }
        let share = ((losing as u128 * self.amount as u128) / winning as u128) as u64;
        let rate = win_streak.calculate_progressive_fee(config);
        let fee = apply_bps(share, rate);
        (share - fee, rate, fee)
    }

    /// What the position is owed under the flat fee `fee_bps`.
    pub fn calculate_total_claim(&self, epoch: &ForecastEpoch, fee_bps: u16) -> (r: u64)
        requires
            fee_bps <= 10000,
            self.within(*epoch),
            epoch.up_vault_total + epoch.down_vault_total <= u64::MAX,
        ensures
            r == self.total_claim(*epoch, fee_bps),
    {
        if let Some(EpochOutcome::Neutral) = epoch.winning_position {
            return self.amount;
        }
        if self.has_lost(epoch) {
            return 0;
        }
        let w = self.calculate_winnings(epoch, fee_bps);
        proof {
            lemma_claim_fits(*self, *epoch, fee_bps);
        }
        self.amount + w
    }

    /// What the position is owed under the user's progressive fee.
    pub fn calculate_total_claim_with_progressive_fee(
        &self,
        epoch: &ForecastEpoch,
        win_streak: &UserWinStreak,
        config: &ForecastConfig,
    ) -> (r: u64)
        requires
            config.wf(),
            self.within(*epoch),
            epoch.up_vault_total + epoch.down_vault_total <= u64::MAX,
        ensures
            r == self.total_claim_progressive(*epoch, *win_streak, *config),
    {
        if let Some(EpochOutcome::Neutral) = epoch.winning_position {
            return self.amount;
        }
        if self.has_lost(epoch) {
            return 0;
        }
        let (w, _, _) = self.calculate_winnings_with_progressive_fee(epoch, win_streak, config);
        proof {
            lemma_progressive_claim_fits(*self, *epoch, *win_streak, *config);
        }
        self.amount + w
    }
}

/// A proportional share `pool * part / whole` of a pool is at most the pool.
pub proof fn lemma_share_bounded(pool: int, part: int, whole: int)
    requires
        0 <= pool,
        0 <= part <= whole,
        whole > 0,
    ensures
        0 <= pool * part / whole <= pool,
{
    assert(pool * part <= pool * whole) by (nonlinear_arith)
        requires
            0 <= pool,
            part <= whole,
    ;
    assert(0 <= pool * part / whole <= pool) by (nonlinear_arith)
        requires
            0 <= pool * part <= pool * whole,
            whole > 0,
            0 <= pool,
    ;
}

/// The product of two 64-bit values fits in 128 bits.
pub proof fn lemma_mul_fits_u128(a: int, b: int)
    requires
        0 <= a <= u64::MAX,
        0 <= b <= u64::MAX,
    ensures
        0 <= a * b <= u128::MAX,
{
    assert(0 <= a * b <= u64::MAX * u64::MAX) by (nonlinear_arith)
        requires
            0 <= a <= u64::MAX,
            0 <= b <= u64::MAX,
    ;
}

/// A position's stake plus its winnings never exceed the stake of its whole epoch.
pub proof fn lemma_claim_fits(p: UserPosition, e: ForecastEpoch, fee_bps: u16)
    requires
        fee_bps <= 10000,
        p.within(e),
        e.up_vault_total + e.down_vault_total <= u64::MAX,
    ensures
        p.amount + p.winnings(e, fee_bps) <= e.up_vault_total + e.down_vault_total,
        p.winnings(e, fee_bps) >= 0,
        0 <= p.total_claim(e, fee_bps) <= e.up_vault_total + e.down_vault_total,
{
    let w = p.winnings(e, fee_bps);
    if e.is_resolved && e.winning_position is Some {
        let losing = e.losing_total();
        let winning = e.side_total(p.position) as int;
        let prize = prize_pool(losing, fee_bps as int);
        assert(0 <= burn_amount(losing) <= losing) by (nonlinear_arith)
            requires losing >= 0, burn_amount(losing) == losing * 800 / 10000;
        let rest = losing - burn_amount(losing);
        assert(0 <= protocol_fee(losing, fee_bps as int) <= rest) by (nonlinear_arith)
            requires rest >= 0, fee_bps <= 10000, protocol_fee(losing, fee_bps as int) == rest * fee_bps / 10000;
        if side_wins(e.winning_position->Some_0, p.position) && winning != 0 && losing != 0 {
            lemma_share_bounded(prize, p.amount as int, winning);
        }
    }
}

proof fn lemma_progressive_claim_fits(
    p: UserPosition,
    e: ForecastEpoch,
    s: UserWinStreak,
    c: ForecastConfig,
)
    requires
        c.wf(),
        p.within(e),
        e.up_vault_total + e.down_vault_total <= u64::MAX,
    ensures
        p.amount + p.progressive_winnings(e, s, c).0 <= e.up_vault_total + e.down_vault_total,
        p.progressive_winnings(e, s, c).0 >= 0,
{
    if e.is_resolved && e.winning_position is Some {
        let losing = e.losing_total();
        let winning = e.side_total(p.position) as int;
        if side_wins(e.winning_position->Some_0, p.position) && winning != 0 && losing != 0 {
            lemma_share_bounded(losing, p.amount as int, winning);
            let share = losing * p.amount / winning;
            let rate = progressive_fee_bps(
                s.consecutive_wins,
                c.base_treasury_fee_bps,
                c.enable_progressive_fees,
            );
            assert(0 <= bps_of(share, rate as int) <= share) by (nonlinear_arith)
                requires share >= 0, 0 <= rate <= 10000, bps_of(share, rate as int) == share * rate / 10000;
        }
    }
}

} // verus!
