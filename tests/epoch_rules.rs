use fuego_forecast::market::initialize_forecast;
use fuego_forecast::math::{apply_bps, median_of, sort_prices};
use fuego_forecast::state::{
    AccountId, DepositTiming, EpochOutcome, ForecastConfig, ForecastEpoch, OraclePrice,
};

fn id(b: u8) -> AccountId {
    AccountId { bytes: [b; 32] }
}

fn config() -> ForecastConfig {
    initialize_forecast(
        id(1),
        id(2),
        id(3),
        255,
        28800,
        500,
        50,
        None,
        Some(10000),
        Some(false),
        Some(2),
        Some(true),
    )
    .unwrap()
}

fn epoch_at(start: i64, end: i64, cutoff: i64, start_price: u64) -> ForecastEpoch {
    ForecastEpoch {
        epoch_id: 1,
        start_timestamp: start,
        end_timestamp: end,
        start_price,
        close_price: 0,
        up_vault_total: 0,
        down_vault_total: 0,
        total_amount: 0,
        is_resolved: false,
        winning_position: None,
        fee_collected: 0,
        oracle_prices: Vec::new(),
        resolution_timestamp: end + 300,
        is_circuit_breaker_triggered: false,
        suspicious_activity_detected: false,
        deposit_cutoff_timestamp: cutoff,
        early_deposit_count: 0,
        late_deposit_count: 0,
        deposit_count: 0,
        total_early_bird_bonuses: 0,
        total_late_penalties: 0,
    }
}

fn with_reports(prices: &[u64]) -> ForecastEpoch {
    let mut e = epoch_at(0, 28800, 21600, 100);
    for p in prices {
        e.oracle_prices.push(OraclePrice { price: *p, timestamp: 29000, source: id(9), confidence: 1 });
    }
    e
}

#[test]
fn phases_follow_the_clock() {
    let mut e = epoch_at(1000, 29800, 22600, 1000);
    assert!(!e.is_active(999));
    assert!(e.is_active(1000));
    assert!(e.is_active(29799));
    assert!(!e.is_active(29800));
    assert!(e.can_accept_deposits(22599));
    assert!(!e.can_accept_deposits(22600));
    assert!(!e.can_be_resolved(30099));
    assert!(e.can_be_resolved(30100));
    e.is_circuit_breaker_triggered = true;
    assert!(!e.can_accept_deposits(2000));
    assert!(!e.can_be_resolved(30100));
}

#[test]
fn timing_classification_by_quarter() {
    // 8-hour epoch, deposits close 2 hours before the end.
    let e = epoch_at(0, 28800, 21600, 1000);
    assert_eq!(e.get_deposit_timing_category(0), DepositTiming::EarlyBird);
    assert_eq!(e.get_deposit_timing_category(7200), DepositTiming::EarlyBird);
    assert_eq!(e.get_deposit_timing_category(7201), DepositTiming::Normal);
    assert_eq!(e.get_deposit_timing_category(14399), DepositTiming::Normal);
    assert_eq!(e.get_deposit_timing_category(14400), DepositTiming::Late);
    assert_eq!(e.get_deposit_timing_category(21599), DepositTiming::Late);
    assert_eq!(e.get_deposit_timing_category(21600), DepositTiming::Normal);
}

#[test]
fn timing_classification_is_stable() {
    let e = epoch_at(0, 28800, 21600, 1000);
    let other = ForecastEpoch { up_vault_total: 5, down_vault_total: 7, total_amount: 12, ..e.clone() };
    for t in [0i64, 5000, 9000, 15000, 25000] {
        let first = e.get_deposit_timing_category(t);
        assert_eq!(first, e.get_deposit_timing_category(t));
        assert_eq!(first, other.get_deposit_timing_category(t));
    }
}

#[test]
fn timing_with_default_cutoff_has_no_late_window() {
    // With a 4-hour cutoff on an 8-hour epoch the late window ends where it starts.
    let e = epoch_at(0, 28800, 14400, 1000);
    assert_eq!(e.get_deposit_timing_category(14399), DepositTiming::Normal);
}

#[test]
fn temporal_adjustment_bonus_and_penalty() {
    let c = config();
    let e = epoch_at(0, 28800, 21600, 1000);
    assert_eq!(e.calculate_temporal_adjustment(1_000_000, DepositTiming::EarlyBird, &c), (15_000, true));
    assert_eq!(e.calculate_temporal_adjustment(1_000_000, DepositTiming::Late, &c), (30_000, false));
    assert_eq!(e.calculate_temporal_adjustment(1_000_000, DepositTiming::Normal, &c), (0, false));
    let off = ForecastConfig { enable_temporal_bonuses: false, ..c };
    assert_eq!(e.calculate_temporal_adjustment(1_000_000, DepositTiming::EarlyBird, &off), (0, false));
}

#[test]
fn outcome_band_boundaries() {
    // Start at 1000 with a 50 bps buffer: the band is 995..=1005.
    let e = epoch_at(0, 28800, 21600, 1000);
    assert_eq!(e.determine_outcome(1100, 50), EpochOutcome::Up);
    assert_eq!(e.determine_outcome(1006, 50), EpochOutcome::Up);
    assert_eq!(e.determine_outcome(1005, 50), EpochOutcome::Neutral);
    assert_eq!(e.determine_outcome(1000, 50), EpochOutcome::Neutral);
    assert_eq!(e.determine_outcome(995, 50), EpochOutcome::Neutral);
    assert_eq!(e.determine_outcome(994, 50), EpochOutcome::Down);
}

#[test]
fn outcome_lower_band_saturates_at_zero() {
    let e = epoch_at(0, 28800, 21600, 0);
    assert_eq!(e.determine_outcome(0, 500), EpochOutcome::Neutral);
    assert_eq!(e.determine_outcome(1, 500), EpochOutcome::Up);
    let top = epoch_at(0, 28800, 21600, u64::MAX);
    assert_eq!(top.determine_outcome(u64::MAX, 500), EpochOutcome::Neutral);
}

#[test]
fn vault_imbalance_check() {
    let mut e = epoch_at(0, 28800, 21600, 1000);
    assert!(!e.check_vault_imbalance(0));
    e.up_vault_total = 800;
    e.down_vault_total = 200;
    e.total_amount = 1000;
    assert!(!e.check_vault_imbalance(8000));
    assert!(e.check_vault_imbalance(7999));
}

#[test]
fn oracle_consensus_rejects_outlier() {
    let e = with_reports(&[100, 101, 99, 150]);
    assert_eq!(e.validate_oracle_prices(1000, 2), None);
}

#[test]
fn oracle_consensus_odd_count_median() {
    let e = with_reports(&[101, 99, 100]);
    assert_eq!(e.validate_oracle_prices(1000, 2), Some(100));
}

#[test]
fn oracle_consensus_even_count_takes_lower_middle() {
    let e = with_reports(&[102, 99, 101, 100]);
    assert_eq!(e.validate_oracle_prices(1000, 2), Some(100));
}

#[test]
fn oracle_consensus_needs_min_sources() {
    assert_eq!(with_reports(&[100]).validate_oracle_prices(1000, 2), None);
    assert_eq!(with_reports(&[]).validate_oracle_prices(1000, 0), None);
    assert_eq!(with_reports(&[100]).validate_oracle_prices(1000, 1), Some(100));
}

#[test]
fn oracle_consensus_deviation_boundary() {
    // 110 is exactly 1000 bps above a median of 100: accepted; 111 is not.
    assert_eq!(with_reports(&[100, 100, 110]).validate_oracle_prices(1000, 2), Some(100));
    assert_eq!(with_reports(&[100, 100, 111]).validate_oracle_prices(1000, 2), None);
}

#[test]
fn oracle_consensus_zero_median() {
    assert_eq!(with_reports(&[0, 0, 0]).validate_oracle_prices(1000, 2), Some(0));
    assert_eq!(with_reports(&[0, 0, 5]).validate_oracle_prices(1000, 2), None);
}

#[test]
fn sorting_and_median_helpers() {
    assert_eq!(sort_prices(&vec![5, 3, 9, 3, 1]), vec![1, 3, 3, 5, 9]);
    assert_eq!(sort_prices(&vec![]), Vec::<u64>::new());
    assert_eq!(median_of(&vec![5, 3, 9, 3, 1]), 3);
    assert_eq!(median_of(&vec![7]), 7);
    assert_eq!(apply_bps(276, 500), 13);
    assert_eq!(apply_bps(u64::MAX, 10000), u64::MAX);
}

#[test]
fn temporal_gaming_threshold() {
    let mut e = epoch_at(0, 28800, 21600, 1000);
    assert!(!e.detect_temporal_gaming());
    e.early_deposit_count = 3;
    e.late_deposit_count = 2;
    e.deposit_count = 5;
    assert!(!e.detect_temporal_gaming());
    e.early_deposit_count = 2;
    e.deposit_count = 4;
    assert!(e.detect_temporal_gaming());
}

#[test]
fn temporal_gaming_counts_all_deposits() {
    // Normal deposits count in the denominator: 2 late of 2 early + 2 late + 1 normal is 40%.
    let mut e = epoch_at(0, 28800, 21600, 1000);
    e.early_deposit_count = 2;
    e.late_deposit_count = 2;
    e.deposit_count = 5;
    assert!(!e.detect_temporal_gaming());
    // No rounding: 401 late of 1000 is above 40%, 400 is not.
    e.early_deposit_count = 0;
    e.late_deposit_count = 401;
    e.deposit_count = 1000;
    assert!(e.detect_temporal_gaming());
    e.late_deposit_count = 400;
    assert!(!e.detect_temporal_gaming());
}

#[test]
fn extreme_imbalance_has_no_rounding() {
    let mut e = epoch_at(0, 28800, 21600, 1000);
    e.up_vault_total = 951;
    e.down_vault_total = 49;
    e.total_amount = 1000;
    assert!(e.detect_suspicious_activity());
    let mut edge = epoch_at(0, 28800, 21600, 1000);
    edge.up_vault_total = 950;
    edge.down_vault_total = 50;
    edge.total_amount = 1000;
    assert!(!edge.detect_suspicious_activity());
}

#[test]
fn suspicious_activity_flag_is_sticky() {
    let mut e = epoch_at(0, 28800, 21600, 1000);
    e.up_vault_total = 96;
    e.down_vault_total = 4;
    e.total_amount = 100;
    assert!(e.detect_suspicious_activity());
    e.up_vault_total = 50;
    e.down_vault_total = 50;
    assert!(e.detect_suspicious_activity());
    let mut calm = epoch_at(0, 28800, 21600, 1000);
    calm.up_vault_total = 95;
    calm.down_vault_total = 5;
    calm.total_amount = 100;
    assert!(!calm.detect_suspicious_activity());
}

#[test]
fn vault_totals_by_outcome() {
    let mut e = epoch_at(0, 28800, 21600, 1000);
    e.up_vault_total = 300;
    e.down_vault_total = 200;
    e.total_amount = 500;
    assert_eq!(e.get_losing_vault_total(), 0);
    assert_eq!(e.get_winning_vault_total(), 0);
    e.winning_position = Some(EpochOutcome::Up);
    assert_eq!((e.get_losing_vault_total(), e.get_winning_vault_total()), (200, 300));
    e.winning_position = Some(EpochOutcome::Down);
    assert_eq!((e.get_losing_vault_total(), e.get_winning_vault_total()), (300, 200));
    e.winning_position = Some(EpochOutcome::Neutral);
    assert_eq!((e.get_losing_vault_total(), e.get_winning_vault_total()), (0, 500));
}
