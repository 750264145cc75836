use fuego_forecast::error::ForecastError;
use fuego_forecast::market::{
    add_oracle_price, claim_rewards, deposit_forecast, initialize_forecast, resolve_epoch,
    start_new_epoch, trigger_circuit_breaker,
};
use fuego_forecast::state::{
    AccountId, DepositTiming, EpochOutcome, ForecastConfig, ForecastEpoch, Position, UserPosition,
};

fn id(b: u8) -> AccountId {
    AccountId { bytes: [b; 32] }
}

fn config(max_imbalance: u16) -> ForecastConfig {
    initialize_forecast(
        id(1),
        id(2),
        id(3),
        255,
        28800,
        500,
        50,
        None,
        Some(max_imbalance),
        Some(false),
        Some(2),
        Some(true),
    )
    .unwrap()
}

fn empty_position() -> UserPosition {
    UserPosition {
        user: id(0),
        epoch_id: 0,
        position: Position::Up,
        amount: 0,
        timestamp: 0,
        has_claimed: false,
        claimed_at: 0,
        is_early_bird: false,
        is_late_deposit: false,
        temporal_bonus: 0,
        commitment_end_time: 0,
        applied_fee_bps: 0,
        bypass_cooldown_fee_paid: 0,
    }
}

/// An epoch opened at 1000 (end 29800, cutoff 22600, resolution 30100) whose
/// vaults already hold 3 tokens a side.
fn funded_epoch(c: &mut ForecastConfig) -> ForecastEpoch {
    let (mut e, _) = start_new_epoch(c, id(1), 1000, 1000).unwrap();
    e.up_vault_total = 3_000_000;
    e.down_vault_total = 3_000_000;
    e.total_amount = 6_000_000;
    e
}

#[test]
fn initialize_validates_parameters() {
    let ok = |fee: u16, buf: u16, dur: i64, cut: Option<i64>| {
        initialize_forecast(id(1), id(2), id(3), 0, dur, fee, buf, None, None, None, cut, None)
    };
    assert_eq!(ok(1001, 50, 28800, None).unwrap_err(), ForecastError::InvalidFee);
    assert_eq!(ok(500, 501, 28800, None).unwrap_err(), ForecastError::InvalidPriceBuffer);
    assert_eq!(ok(500, 50, 0, None).unwrap_err(), ForecastError::InvalidEpochDuration);
    assert_eq!(ok(500, 50, 604801, None).unwrap_err(), ForecastError::InvalidEpochDuration);
    assert_eq!(ok(500, 50, 28800, Some(1)).unwrap_err(), ForecastError::InvalidDepositCutoff);
    assert_eq!(ok(500, 50, 28800, Some(7)).unwrap_err(), ForecastError::InvalidDepositCutoff);
    let c = ok(1000, 500, 604800, None).unwrap();
    assert_eq!(c.deposit_cutoff_hours, 4);
    assert_eq!(c.max_position_size, 1_000_000_000_000);
    assert_eq!(c.max_vault_imbalance_bps, 8000);
    assert!(c.require_multiple_oracles);
    assert!(c.enable_temporal_bonuses);
    assert!(c.is_active);
    assert_eq!(c.treasury, c.authority);
    assert_eq!(c.current_epoch, 0);
}

#[test]
fn start_epoch_derives_timestamps() {
    let mut c = config(10000);
    let (e, ev) = start_new_epoch(&mut c, id(1), 1000, 5000).unwrap();
    assert_eq!(c.current_epoch, 1);
    assert_eq!(e.epoch_id, 1);
    assert_eq!(e.end_timestamp, 33800);
    assert_eq!(e.resolution_timestamp, 34100);
    assert_eq!(e.deposit_cutoff_timestamp, 26600);
    assert_eq!(ev.deposit_cutoff_timestamp, 26600);
    let (e2, _) = start_new_epoch(&mut c, id(1), 1000, 40000).unwrap();
    assert_eq!(e2.epoch_id, 2);
}

#[test]
fn start_epoch_refusals() {
    let mut c = config(10000);
    assert_eq!(start_new_epoch(&mut c, id(7), 1000, 0).unwrap_err(), ForecastError::Unauthorized);
    c.is_active = false;
    assert_eq!(start_new_epoch(&mut c, id(1), 1000, 0).unwrap_err(), ForecastError::MarketInactive);
    c.is_active = true;
    assert_eq!(start_new_epoch(&mut c, id(1), 1000, i64::MAX).unwrap_err(), ForecastError::MathOverflow);
    assert_eq!(c.current_epoch, 0);
}

#[test]
fn deposit_accepted_early_bird() {
    let mut c = config(10000);
    let mut e = funded_epoch(&mut c);
    let mut p = empty_position();
    let ev = deposit_forecast(&c, &mut e, &mut p, id(5), 1_000_000, Position::Up, 2000).unwrap();
    assert_eq!(ev.deposit_timing, DepositTiming::EarlyBird);
    assert_eq!(ev.temporal_adjustment, 15_000);
    assert!(ev.is_bonus);
    assert_eq!(ev.vault_imbalance_bps, 5714);
    assert_eq!((e.up_vault_total, e.down_vault_total, e.total_amount), (4_000_000, 3_000_000, 7_000_000));
    assert_eq!(e.early_deposit_count, 1);
    assert_eq!(e.deposit_count, 1);
    assert_eq!(e.total_early_bird_bonuses, 15_000);
    assert_eq!(p.amount, 1_000_000);
    assert!(p.is_early_bird);
    assert_eq!(p.commitment_end_time, 2000 + 4 * 3600);
    assert_eq!(p.epoch_id, e.epoch_id);
    // A second deposit on the same side accumulates.
    deposit_forecast(&c, &mut e, &mut p, id(5), 1_000_000, Position::Up, 9000).unwrap();
    assert_eq!(p.amount, 2_000_000);
    assert!(!p.is_early_bird);
}

#[test]
fn deposit_late_records_penalty() {
    let mut c = config(10000);
    let mut e = funded_epoch(&mut c);
    let mut p = empty_position();
    let ev = deposit_forecast(&c, &mut e, &mut p, id(5), 1_000_000, Position::Down, 20000).unwrap();
    assert_eq!(ev.deposit_timing, DepositTiming::Late);
    assert_eq!(ev.temporal_adjustment, 30_000);
    assert!(!ev.is_bonus);
    assert_eq!(e.late_deposit_count, 1);
    assert_eq!(e.total_late_penalties, 30_000);
    assert!(p.is_late_deposit);
    // One late deposit out of one timed deposit is more than 40%: the epoch is flagged.
    assert!(e.suspicious_activity_detected);
    let mut q = empty_position();
    assert_eq!(
        deposit_forecast(&c, &mut e, &mut q, id(6), 1_000_000, Position::Up, 20001).unwrap_err(),
        ForecastError::SuspiciousActivityDetected
    );
}

#[test]
fn deposit_imbalance_boundary_is_accepted() {
    // 4M against 3M is 5714 bps.
    let mut c = config(5714);
    let mut e = funded_epoch(&mut c);
    let mut p = empty_position();
    assert!(deposit_forecast(&c, &mut e, &mut p, id(5), 1_000_000, Position::Up, 9000).is_ok());
}

#[test]
fn deposit_imbalance_above_threshold_is_refused() {
    let mut c = config(5713);
    let mut e = funded_epoch(&mut c);
    let before = e.clone();
    let mut p = empty_position();
    assert_eq!(
        deposit_forecast(&c, &mut e, &mut p, id(5), 1_000_000, Position::Up, 9000).unwrap_err(),
        ForecastError::VaultImbalanceExceeded
    );
    assert_eq!(e.up_vault_total, before.up_vault_total);
    assert_eq!(p.amount, 0);
}

#[test]
fn first_deposit_with_default_limits_is_refused() {
    let mut c = initialize_forecast(id(1), id(2), id(3), 0, 28800, 500, 50, None, None, None, None, None)
        .unwrap();
    let (mut e, _) = start_new_epoch(&mut c, id(1), 1000, 1000).unwrap();
    let mut p = empty_position();
    assert_eq!(
        deposit_forecast(&c, &mut e, &mut p, id(5), 1_000_000, Position::Up, 2000).unwrap_err(),
        ForecastError::VaultImbalanceExceeded
    );
}

#[test]
fn deposit_single_position_cap() {
    let mut c = config(10000);
    let (mut e, _) = start_new_epoch(&mut c, id(1), 1000, 1000).unwrap();
    let mut p = empty_position();
    assert_eq!(
        deposit_forecast(&c, &mut e, &mut p, id(5), 1_000_000, Position::Up, 2000).unwrap_err(),
        ForecastError::SinglePositionTooLarge
    );
    // Exactly half of the side is allowed.
    e.up_vault_total = 1_000_000;
    e.down_vault_total = 1_000_000;
    e.total_amount = 2_000_000;
    assert!(deposit_forecast(&c, &mut e, &mut p, id(5), 1_000_000, Position::Up, 2000).is_ok());
}

#[test]
fn deposit_just_over_half_of_side_is_refused() {
    // 1,000,000 of a new Up total of 1,999,999 is just over half.
    let mut c = config(10000);
    let (mut e, _) = start_new_epoch(&mut c, id(1), 1000, 1000).unwrap();
    e.up_vault_total = 999_999;
    e.down_vault_total = 1_999_999;
    e.total_amount = 2_999_998;
    let mut p = empty_position();
    assert_eq!(
        deposit_forecast(&c, &mut e, &mut p, id(5), 1_000_000, Position::Up, 2000).unwrap_err(),
        ForecastError::SinglePositionTooLarge
    );
    assert_eq!(e.up_vault_total, 999_999);
    assert_eq!(p.amount, 0);
}

#[test]
fn deposit_counts_own_earlier_stake_against_cap() {
    // A second deposit that brings the depositor's own stake above half its side is refused.
    let mut c = config(10000);
    let mut e = funded_epoch(&mut c);
    let mut p = empty_position();
    deposit_forecast(&c, &mut e, &mut p, id(5), 1_000_000, Position::Up, 9000).unwrap();
    deposit_forecast(&c, &mut e, &mut p, id(5), 2_000_000, Position::Up, 9000).unwrap();
    assert_eq!(p.amount, 3_000_000);
    assert_eq!(
        deposit_forecast(&c, &mut e, &mut p, id(5), 1_000_000, Position::Up, 9000).unwrap_err(),
        ForecastError::SinglePositionTooLarge
    );
}

#[test]
fn deposit_state_refusals() {
    let mut c = config(10000);
    let mut e = funded_epoch(&mut c);
    let mut p = empty_position();
    let mut try_at = |c: &ForecastConfig, e: &mut ForecastEpoch, amount: u64, t: i64| {
        deposit_forecast(c, e, &mut p, id(5), amount, Position::Up, t).unwrap_err()
    };
    let inactive = ForecastConfig { is_active: false, ..c };
    assert_eq!(try_at(&inactive, &mut e, 1_000_000, 2000), ForecastError::MarketInactive);
    assert_eq!(try_at(&c, &mut e, 1_000_000, 999), ForecastError::EpochNotActive);
    assert_eq!(try_at(&c, &mut e, 1_000_000, 29800), ForecastError::EpochNotActive);
    assert_eq!(try_at(&c, &mut e, 1_000_000, 22600), ForecastError::DepositCutoffPassed);
    assert_eq!(try_at(&c, &mut e, 999_999, 2000), ForecastError::PositionTooSmall);
    let small_cap = ForecastConfig { max_position_size: 1_500_000, ..c };
    assert_eq!(try_at(&small_cap, &mut e, 2_000_000, 2000), ForecastError::PositionTooLarge);
    let mut flagged = e.clone();
    flagged.suspicious_activity_detected = true;
    assert_eq!(try_at(&c, &mut flagged, 1_000_000, 2000), ForecastError::SuspiciousActivityDetected);
    trigger_circuit_breaker(&c, &mut e, id(1)).unwrap();
    assert_eq!(try_at(&c, &mut e, 1_000_000, 2000), ForecastError::CircuitBreakerTriggered);
}

#[test]
fn deposit_position_checks() {
    let mut c = config(10000);
    let mut e = funded_epoch(&mut c);
    let mut p = empty_position();
    deposit_forecast(&c, &mut e, &mut p, id(5), 1_000_000, Position::Up, 9000).unwrap();
    assert_eq!(
        deposit_forecast(&c, &mut e, &mut p, id(5), 1_000_000, Position::Down, 9000).unwrap_err(),
        ForecastError::PositionMismatch
    );
    assert_eq!(
        deposit_forecast(&c, &mut e, &mut p, id(6), 1_000_000, Position::Up, 9000).unwrap_err(),
        ForecastError::Unauthorized
    );
    let mut other = p;
    other.epoch_id = 99;
    assert_eq!(
        deposit_forecast(&c, &mut e, &mut other, id(5), 1_000_000, Position::Up, 9000).unwrap_err(),
        ForecastError::EpochMismatch
    );
}

#[test]
fn circuit_breaker_needs_authority() {
    let mut c = config(10000);
    let mut e = funded_epoch(&mut c);
    assert_eq!(trigger_circuit_breaker(&c, &mut e, id(9)).unwrap_err(), ForecastError::Unauthorized);
    assert!(!e.is_circuit_breaker_triggered);
    trigger_circuit_breaker(&c, &mut e, id(1)).unwrap();
    assert!(e.is_circuit_breaker_triggered && e.suspicious_activity_detected);
    assert_eq!(resolve_epoch(&c, &mut e, id(1), Some(1100), 40000).unwrap_err(), ForecastError::CannotResolve);
}

#[test]
fn oracle_reports_and_consensus_resolution() {
    let mut c = config(10000);
    c.require_multiple_oracles = true;
    let mut e = funded_epoch(&mut c);
    assert_eq!(add_oracle_price(&c, &mut e, id(1), 1100, id(8), 1, 29799).unwrap_err(), ForecastError::EpochNotEnded);
    assert_eq!(add_oracle_price(&c, &mut e, id(4), 1100, id(8), 1, 29800).unwrap_err(), ForecastError::Unauthorized);
    assert_eq!(resolve_epoch(&c, &mut e, id(1), None, 30100).unwrap_err(), ForecastError::InsufficientOracleSources);
    for p in [1100u64, 1102, 1098] {
        add_oracle_price(&c, &mut e, id(1), p, id(8), 1, 29900).unwrap();
    }
    assert_eq!(e.oracle_prices.len(), 3);
    assert_eq!(e.oracle_prices[0].timestamp, 29900);
    let s = resolve_epoch(&c, &mut e, id(1), Some(1), 30100).unwrap();
    assert_eq!(s.outcome, EpochOutcome::Up);
    assert_eq!(s.event.close_price, 1100);
    assert_eq!(s.event.oracle_sources_used, 3);
    assert_eq!(e.close_price, 1100);
    assert!(e.is_resolved);
    assert_eq!(
        add_oracle_price(&c, &mut e, id(1), 1100, id(8), 1, 40000).unwrap_err(),
        ForecastError::EpochAlreadyResolved
    );
}

#[test]
fn oracle_deviation_refuses_resolution() {
    let mut c = config(10000);
    c.require_multiple_oracles = true;
    let mut e = funded_epoch(&mut c);
    add_oracle_price(&c, &mut e, id(1), 1000, id(8), 1, 29900).unwrap();
    assert_eq!(resolve_epoch(&c, &mut e, id(1), None, 30100).unwrap_err(), ForecastError::InsufficientOracleSources);
    for p in [1001u64, 999, 1500] {
        add_oracle_price(&c, &mut e, id(1), p, id(8), 1, 29900).unwrap();
    }
    assert_eq!(resolve_epoch(&c, &mut e, id(1), None, 30100).unwrap_err(), ForecastError::OraclePriceDeviationHigh);
    assert!(!e.is_resolved);
}

#[test]
fn oracle_report_list_is_bounded() {
    let mut c = config(10000);
    let mut e = funded_epoch(&mut c);
    for _ in 0..10 {
        add_oracle_price(&c, &mut e, id(1), 1000, id(8), 1, 30000).unwrap();
    }
    assert_eq!(
        add_oracle_price(&c, &mut e, id(1), 1000, id(8), 1, 30000).unwrap_err(),
        ForecastError::OracleReportsFull
    );
}

#[test]
fn resolve_refusals() {
    let mut c = config(10000);
    let mut e = funded_epoch(&mut c);
    assert_eq!(resolve_epoch(&c, &mut e, id(2), Some(1100), 30100).unwrap_err(), ForecastError::Unauthorized);
    assert_eq!(resolve_epoch(&c, &mut e, id(1), Some(1100), 30099).unwrap_err(), ForecastError::CannotResolve);
    assert_eq!(resolve_epoch(&c, &mut e, id(1), None, 30100).unwrap_err(), ForecastError::InvalidAmount);
    let inactive = ForecastConfig { is_active: false, ..c };
    assert_eq!(resolve_epoch(&inactive, &mut e, id(1), Some(1100), 30100).unwrap_err(), ForecastError::MarketInactive);
    assert!(!e.is_resolved);
    resolve_epoch(&c, &mut e, id(1), Some(1000), 30100).unwrap();
    assert_eq!(resolve_epoch(&c, &mut e, id(1), Some(1100), 30200).unwrap_err(), ForecastError::CannotResolve);
}

#[test]
fn neutral_resolution_collects_nothing() {
    let mut c = config(10000);
    let mut e = funded_epoch(&mut c);
    let s = resolve_epoch(&c, &mut e, id(1), Some(1005), 30100).unwrap();
    assert_eq!(s.outcome, EpochOutcome::Neutral);
    assert_eq!((s.split.burn_amount, s.split.fee_amount, s.split.prize_pool), (0, 0, 0));
    assert_eq!(e.fee_collected, 0);
}

fn position(user: u8, side: Position, amount: u64, early: bool, late: bool, bonus: u64) -> UserPosition {
    UserPosition {
        user: id(user),
        epoch_id: 1,
        position: side,
        amount,
        is_early_bird: early,
        is_late_deposit: late,
        temporal_bonus: bonus,
        commitment_end_time: 10000,
        ..empty_position()
    }
}

#[test]
fn end_to_end_up_outcome() {
    let mut c = config(10000);
    let (mut e, _) = start_new_epoch(&mut c, id(1), 1000, 1000).unwrap();
    // Three Up stakes of 100 at different timings and one Down stake of 300.
    let mut early = position(11, Position::Up, 100, true, false, 1);
    let mut normal = position(12, Position::Up, 100, false, false, 0);
    let mut late = position(13, Position::Up, 100, false, true, 3);
    let mut down = position(14, Position::Down, 300, false, false, 0);
    e.up_vault_total = 300;
    e.down_vault_total = 300;
    e.total_amount = 600;
    let s = resolve_epoch(&c, &mut e, id(1), Some(1100), 30100).unwrap();
    assert_eq!(s.outcome, EpochOutcome::Up);
    assert_eq!(s.split.burn_amount, 24);
    assert_eq!(s.split.fee_amount, 13);
    assert_eq!(s.split.prize_pool, 263);
    assert_eq!(s.split.treasury_share, 10);
    assert_eq!(s.split.bonding_share, 3);
    assert_eq!(e.fee_collected, 13);
    assert_eq!(normal.calculate_winnings(&e, c.fee_bps), 87);
    let a = claim_rewards(&c, &e, &mut early, id(11), 30100).unwrap();
    let b = claim_rewards(&c, &e, &mut normal, id(12), 30100).unwrap();
    let l = claim_rewards(&c, &e, &mut late, id(13), 30100).unwrap();
    let d = claim_rewards(&c, &e, &mut down, id(14), 30100).unwrap();
    assert_eq!(a.total_claim, 188);
    assert_eq!(b.total_claim, 187);
    assert_eq!(l.total_claim, 184);
    assert_eq!(d.total_claim, 0);
    assert_eq!(b.base_winnings, 87);
    assert!(87 * 3 <= s.split.prize_pool);
}

#[test]
fn claim_twice_is_refused_without_change() {
    let mut c = config(10000);
    let mut e = funded_epoch(&mut c);
    let mut p = position(11, Position::Up, 1_000_000, false, false, 0);
    resolve_epoch(&c, &mut e, id(1), Some(2000), 30100).unwrap();
    let first = claim_rewards(&c, &e, &mut p, id(11), 30200).unwrap();
    assert!(first.total_claim > 1_000_000);
    assert!(p.has_claimed);
    assert_eq!(p.claimed_at, 30200);
    let after_first = p;
    assert_eq!(claim_rewards(&c, &e, &mut p, id(11), 30300).unwrap_err(), ForecastError::AlreadyClaimed);
    assert_eq!(p.claimed_at, after_first.claimed_at);
    assert!(p.has_claimed);
}

#[test]
fn claim_refusals() {
    let mut c = config(10000);
    let mut e = funded_epoch(&mut c);
    let mut p = position(11, Position::Up, 1_000_000, false, false, 0);
    assert_eq!(claim_rewards(&c, &e, &mut p, id(11), 30200).unwrap_err(), ForecastError::EpochNotResolved);
    resolve_epoch(&c, &mut e, id(1), Some(2000), 30100).unwrap();
    assert_eq!(claim_rewards(&c, &e, &mut p, id(12), 30200).unwrap_err(), ForecastError::Unauthorized);
    let mut elsewhere = position(11, Position::Up, 1_000_000, false, false, 0);
    elsewhere.epoch_id = 2;
    assert_eq!(claim_rewards(&c, &e, &mut elsewhere, id(11), 30200).unwrap_err(), ForecastError::EpochMismatch);
    p.commitment_end_time = 40000;
    assert_eq!(claim_rewards(&c, &e, &mut p, id(11), 39999).unwrap_err(), ForecastError::CommitmentPeriodActive);
    assert!(claim_rewards(&c, &e, &mut p, id(11), 40000).is_ok());
}

#[test]
fn neutral_claim_returns_stake() {
    let mut c = config(10000);
    let (mut e, _) = start_new_epoch(&mut c, id(1), 1000, 1000).unwrap();
    e.up_vault_total = 900;
    e.down_vault_total = 100;
    e.total_amount = 1000;
    resolve_epoch(&c, &mut e, id(1), Some(996), 30100).unwrap();
    let mut up = position(11, Position::Up, 900, false, false, 0);
    let mut dn = position(12, Position::Down, 100, false, false, 0);
    assert_eq!(up.calculate_total_claim(&e, c.fee_bps), 900);
    assert_eq!(dn.calculate_total_claim(&e, c.fee_bps), 100);
    assert_eq!(claim_rewards(&c, &e, &mut up, id(11), 30100).unwrap().total_claim, 900);
    assert_eq!(claim_rewards(&c, &e, &mut dn, id(12), 30100).unwrap().total_claim, 100);
}

#[test]
fn temporal_adjustments_off_at_claim() {
    let mut c = config(10000);
    let mut e = funded_epoch(&mut c);
    resolve_epoch(&c, &mut e, id(1), Some(1000), 30100).unwrap();
    c.enable_temporal_bonuses = false;
    let mut p = position(11, Position::Up, 1_000_000, true, false, 15_000);
    let ev = claim_rewards(&c, &e, &mut p, id(11), 30100).unwrap();
    assert_eq!(ev.temporal_adjustment, 0);
    assert_eq!(ev.total_claim, 1_000_000);
}

#[test]
fn admin_updates_need_authority() {
    let mut c = config(10000);
    assert_eq!(fuego_forecast::market::update_treasury_fee(&mut c, id(9), 100).unwrap_err(), ForecastError::Unauthorized);
    assert_eq!(fuego_forecast::market::update_treasury_fee(&mut c, id(1), 1001).unwrap_err(), ForecastError::InvalidFee);
    assert_eq!(c.fee_bps, 500);
    fuego_forecast::market::update_treasury_fee(&mut c, id(1), 1000).unwrap();
    assert_eq!(c.fee_bps, 1000);
    assert_eq!(fuego_forecast::market::update_treasury(&mut c, id(9), id(7)).unwrap_err(), ForecastError::Unauthorized);
    fuego_forecast::market::update_treasury(&mut c, id(1), id(7)).unwrap();
    assert_eq!(c.treasury, id(7));
}
