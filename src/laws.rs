//! Properties that hold across the market's operations.
use vstd::prelude::*;

use crate::epoch::{buffer_amount, outcome_for};
use crate::error::ForecastError;
use crate::market::{
    claim_adjustment, claim_amount, claim_rejection, deposit_gate, deposit_overflows,
    deposit_rejection, exceeds_single_position_cap, imbalance_after, position_after_claim,
};
use crate::math::abs_diff;
use crate::payout::{burn_amount, prize_pool, protocol_fee, side_wins, vault_split_of};
use crate::state::{AccountId, EpochOutcome, ForecastConfig, ForecastEpoch, Position, UserPosition};

verus! {

/// Flat-fee winnings of a list of positions in one epoch.
pub open spec fn total_winnings(ps: Seq<UserPosition>, e: ForecastEpoch, fee_bps: u16) -> int
    decreases ps.len(),
{
    if ps.len() == 0 {
        0
    } else {
        total_winnings(ps.drop_last(), e, fee_bps) + ps.last().winnings(e, fee_bps)
    }
}

/// Stake of those positions of a list that are on the winning side of `e`.
pub open spec fn winning_stake(ps: Seq<UserPosition>, e: ForecastEpoch) -> int
    decreases ps.len(),
{
    if ps.len() == 0 {
        0
    } else {
        winning_stake(ps.drop_last(), e) + if e.winning_position is Some && side_wins(
            e.winning_position->Some_0,
            ps.last().position,
        ) {
            ps.last().amount as int
        } else {
            0
        }
    }
}

/// Total flat-fee claims of a list of positions in one epoch.
pub open spec fn total_claims(ps: Seq<UserPosition>, e: ForecastEpoch, fee_bps: u16) -> int
    decreases ps.len(),
{
    if ps.len() == 0 {
        0
    } else {
        total_claims(ps.drop_last(), e, fee_bps) + ps.last().total_claim(e, fee_bps)
    }
}

/// Settlement conserves the losing vault: burn, protocol fee and prize pool add
/// up to it, and the treasury and bonding shares add up to the fee.
pub proof fn lemma_settlement_conserves_funds(losing: u64, fee_bps: u16)
    requires
        fee_bps <= 10000,
    ensures
        ({
            let s = vault_split_of(losing as int, fee_bps as int);
            &&& s.burn_amount + s.fee_amount + s.prize_pool == losing
            &&& s.treasury_share + s.bonding_share == s.fee_amount
        }),
        0 <= burn_amount(losing as int),
        0 <= protocol_fee(losing as int, fee_bps as int),
        0 <= prize_pool(losing as int, fee_bps as int),
{
    let l = losing as int;
    assert(0 <= burn_amount(l) <= l) by (nonlinear_arith)
        requires
            l >= 0,
            burn_amount(l) == l * 800 / 10000,
    ;
    let rest = l - burn_amount(l);
    assert(0 <= protocol_fee(l, fee_bps as int) <= rest) by (nonlinear_arith)
        requires
            rest >= 0,
            fee_bps <= 10000,
            protocol_fee(l, fee_bps as int) == rest * fee_bps / 10000,
    ;
    let fee = protocol_fee(l, fee_bps as int);
    assert(0 <= fee * 80 / 100 <= fee) by (nonlinear_arith)
        requires
            fee >= 0,
    ;
}

/// No over-distribution: in a resolved epoch with a winner, the winnings of any
/// list of positions whose winning-side stake is within the winning vault add up
/// to at most the prize pool, so burn, fee, the winnings paid and the unpaid
/// remainder of the pool add up to the losing vault; and all their claims
/// together stay within the winning vault plus the prize pool.
pub proof fn lemma_payouts_within_prize_pool(
    e: ForecastEpoch,
    ps: Seq<UserPosition>,
    fee_bps: u16,
)
    requires
        fee_bps <= 10000,
        e.is_resolved,
        e.winning_position == Some(EpochOutcome::Up) || e.winning_position == Some(
            EpochOutcome::Down,
        ),
        winning_stake(ps, e) <= e.winning_total(),
    ensures
        0 <= total_winnings(ps, e, fee_bps) <= prize_pool(e.losing_total(), fee_bps as int),
        burn_amount(e.losing_total()) + protocol_fee(e.losing_total(), fee_bps as int)
            + total_winnings(ps, e, fee_bps) + (prize_pool(e.losing_total(), fee_bps as int)
            - total_winnings(ps, e, fee_bps)) == e.losing_total(),
        total_claims(ps, e, fee_bps) <= e.winning_total() + prize_pool(
            e.losing_total(),
            fee_bps as int,
        ),
{
    lemma_claims_split(e, ps, fee_bps);
    let l = e.losing_total();
    let w = e.winning_total();
    let prize = prize_pool(l, fee_bps as int);
    lemma_settlement_conserves_funds(l as u64, fee_bps);
    if w == 0 || l == 0 {
        lemma_no_winnings_without_both_vaults(e, ps, fee_bps);
    } else {
        lemma_winnings_scaled(e, ps, fee_bps);
        let t = total_winnings(ps, e, fee_bps);
        let s = winning_stake(ps, e);
        assert(t <= prize) by (nonlinear_arith)
            requires
                t * w <= prize * s,
                s <= w,
                w > 0,
                prize >= 0,
        ;
    }
}

proof fn lemma_claims_split(e: ForecastEpoch, ps: Seq<UserPosition>, fee_bps: u16)
    requires
        e.winning_position == Some(EpochOutcome::Up) || e.winning_position == Some(
            EpochOutcome::Down,
        ),
    ensures
        total_claims(ps, e, fee_bps) == winning_stake(ps, e) + total_winnings(ps, e, fee_bps),
    decreases ps.len(),
{
    if ps.len() > 0 {
        lemma_claims_split(e, ps.drop_last(), fee_bps);
        let p = ps.last();
        if !side_wins(e.winning_position->Some_0, p.position) {
            assert(p.winnings(e, fee_bps) == 0);
        }
    }
}

proof fn lemma_no_winnings_without_both_vaults(e: ForecastEpoch, ps: Seq<UserPosition>, fee_bps: u16)
    requires
        e.is_resolved,
        e.winning_position == Some(EpochOutcome::Up) || e.winning_position == Some(
            EpochOutcome::Down,
        ),
        e.winning_total() == 0 || e.losing_total() == 0,
    ensures
        total_winnings(ps, e, fee_bps) == 0,
    decreases ps.len(),
{
    if ps.len() > 0 {
        lemma_no_winnings_without_both_vaults(e, ps.drop_last(), fee_bps);
    }
}

proof fn lemma_winnings_scaled(e: ForecastEpoch, ps: Seq<UserPosition>, fee_bps: u16)
    requires
        fee_bps <= 10000,
        e.is_resolved,
        e.winning_position == Some(EpochOutcome::Up) || e.winning_position == Some(
            EpochOutcome::Down,
        ),
        e.winning_total() > 0,
        e.losing_total() > 0,
    ensures
        0 <= total_winnings(ps, e, fee_bps),
        0 <= winning_stake(ps, e),
        total_winnings(ps, e, fee_bps) * e.winning_total() <= prize_pool(
            e.losing_total(),
            fee_bps as int,
        ) * winning_stake(ps, e),
    decreases ps.len(),
{
    if ps.len() > 0 {
        let rest = ps.drop_last();
        let p = ps.last();
        lemma_winnings_scaled(e, rest, fee_bps);
        let w = e.winning_total();
        let prize = prize_pool(e.losing_total(), fee_bps as int);
        lemma_settlement_conserves_funds(e.losing_total() as u64, fee_bps);
        let t0 = total_winnings(rest, e, fee_bps);
        let s0 = winning_stake(rest, e);
        if side_wins(e.winning_position->Some_0, p.position) {
            assert(e.side_total(p.position) == w);
            let a = p.amount as int;
            let x = prize * a / w;
            assert(p.winnings(e, fee_bps) == x);
            assert(0 <= x && x * w <= prize * a) by (nonlinear_arith)
                requires
                    x == prize * a / w,
                    w > 0,
                    prize >= 0,
                    a >= 0,
            ;
            assert((t0 + x) * w <= prize * (s0 + a)) by (nonlinear_arith)
                requires
                    t0 * w <= prize * s0,
                    x * w <= prize * a,
            ;
        } else {
            assert(p.winnings(e, fee_bps) == 0);
        }
    }
}

/// Neutral outcome: when the close price lies within the buffer around the
/// start price, the epoch settles neutral and every position's claim is exactly
/// its stake, whatever the vault sizes; a claim adds or subtracts nothing more
/// unless the position carries a temporal bonus or penalty.
pub proof fn lemma_neutral_claim_is_stake(
    config: ForecastConfig,
    e: ForecastEpoch,
    p: UserPosition,
)
    requires
        abs_diff(e.close_price as int, e.start_price as int) <= buffer_amount(
            e.start_price,
            config.price_buffer_bps,
        ),
        e.winning_position == Some(
            outcome_for(e.start_price, e.close_price, config.price_buffer_bps),
        ),
    ensures
        e.winning_position == Some(EpochOutcome::Neutral),
        p.total_claim(e, config.fee_bps) == p.amount,
        p.winnings(e, config.fee_bps) == 0,
        claim_adjustment(config, p) == 0 ==> claim_amount(config, e, p) == p.amount,
{
    assert(buffer_amount(e.start_price, config.price_buffer_bps) >= 0) by (nonlinear_arith)
        requires
            buffer_amount(e.start_price, config.price_buffer_bps) == e.start_price
                * config.price_buffer_bps / 10000,
    ;
}

/// Admission at the imbalance boundary: a deposit that would leave the larger
/// vault above `max_vault_imbalance_bps` of the total is always refused; one
/// that passes the state checks and leaves it at or below that share, the
/// boundary included, is never refused for imbalance, and is accepted when it
/// also keeps the depositor within half of its side and overflows nothing.
pub proof fn lemma_imbalance_admission(
    config: ForecastConfig,
    epoch: ForecastEpoch,
    pos: UserPosition,
    user: AccountId,
    amount: u64,
    side: Position,
    now: i64,
)
    ensures
        imbalance_after(epoch, amount, side) > config.max_vault_imbalance_bps ==> deposit_rejection(
            config,
            epoch,
            pos,
            user,
            amount,
            side,
            now,
        ) is Some,
        deposit_gate(config, epoch, pos, user, amount, side, now) is None && imbalance_after(
            epoch,
            amount,
            side,
        ) <= config.max_vault_imbalance_bps ==> deposit_rejection(
            config,
            epoch,
            pos,
            user,
            amount,
            side,
            now,
        ) != Some(ForecastError::VaultImbalanceExceeded),
        deposit_gate(config, epoch, pos, user, amount, side, now) is None && imbalance_after(
            epoch,
            amount,
            side,
        ) <= config.max_vault_imbalance_bps && !exceeds_single_position_cap(epoch, pos, amount, side)
            && !deposit_overflows(config, epoch, amount, now) ==> deposit_rejection(
            config,
            epoch,
            pos,
            user,
            amount,
            side,
            now,
        ) is None,
{
}

/// A position pays out once: after a claim that succeeds at `t1`, a second
/// claim at any `t2` is refused as already claimed.
pub proof fn lemma_claim_once(
    config: ForecastConfig,
    epoch: ForecastEpoch,
    pos: UserPosition,
    user: AccountId,
    t1: i64,
    t2: i64,
)
    requires
        claim_rejection(config, epoch, pos, user, t1) is None,
    ensures
        claim_rejection(config, epoch, position_after_claim(pos, t1), user, t2) == Some(
            ForecastError::AlreadyClaimed,
        ),
{
}

/// A claim is accepted when the epoch is resolved, the signer owns the
/// position, the position belongs to the epoch, has not been claimed, is past
/// its commitment period (when one applies), and its payout fits in a `u64`.
pub proof fn lemma_claim_accepted(
    config: ForecastConfig,
    epoch: ForecastEpoch,
    pos: UserPosition,
    user: AccountId,
    now: i64,
)
    requires
        epoch.is_resolved,
        pos.user.key() == user.key(),
        pos.epoch_id == epoch.epoch_id,
        !pos.has_claimed,
        config.commitment_period_hours <= 0 || now >= pos.commitment_end_time,
        claim_amount(config, epoch, pos) <= u64::MAX,
    ensures
        claim_rejection(config, epoch, pos, user, now) is None,
{
}

/// A neutral claim is accepted and pays exactly the stake, whatever the vault
/// sizes and the fee, for a position without a temporal bonus or penalty.
pub proof fn lemma_neutral_claim_pays_stake(
    config: ForecastConfig,
    epoch: ForecastEpoch,
    pos: UserPosition,
    user: AccountId,
    now: i64,
)
    requires
        epoch.is_resolved,
        epoch.winning_position == Some(EpochOutcome::Neutral),
        pos.user.key() == user.key(),
        pos.epoch_id == epoch.epoch_id,
        !pos.has_claimed,
        config.commitment_period_hours <= 0 || now >= pos.commitment_end_time,
        !((pos.is_early_bird || pos.is_late_deposit) && claim_adjustment(config, pos) > 0),
    ensures
        claim_rejection(config, epoch, pos, user, now) is None,
        claim_amount(config, epoch, pos) == pos.amount,
{
}

} // verus!
