//! The market's operations. Each one checks its inputs against the stored
//! state and either applies all of its changes or none, returning what the
//! caller must move on the ledger and publish.
use vstd::prelude::*;

use crate::epoch::{
    deposit_timing, extreme_imbalance, oracle_consensus, outcome_for, temporal_adjustment,
    temporal_gaming,
};
use crate::error::ForecastError;
use crate::events::{EpochResolved, EpochStarted, ForecastDeposit, RewardsClaimed};
use crate::math::imbalance_of;
use crate::payout::{split_losing_vault, vault_split_of, VaultSplit};
use crate::state::{
    AccountId, COMMITMENT_PERIOD_HOURS, DEFAULT_DEPOSIT_CUTOFF_HOURS, DepositTiming,
    EARLY_BIRD_BONUS_BPS, EpochOutcome, ForecastConfig, ForecastEpoch, LATE_DEPOSIT_PENALTY_BPS,
    MAX_DEPOSIT_CUTOFF_HOURS, MAX_EPOCH_DURATION, MAX_FEE_BPS, MAX_ORACLE_DEVIATION_BPS,
    MAX_ORACLE_REPORTS, MAX_POSITION_SIZE, MAX_PRICE_BUFFER_BPS, MAX_SINGLE_POSITION_PERCENT,
    MAX_VAULT_IMBALANCE_BPS, MIN_DEPOSIT_CUTOFF_HOURS, MIN_ORACLE_SOURCES, MIN_POSITION_SIZE,
    OraclePrice, Position, PRICE_RESOLUTION_DELAY, UserPosition,
};

verus! {

/// `o`'s value, or `d` when it has none.
pub open spec fn or_default<T>(o: Option<T>, d: T) -> T {
    match o {
        Some(v) => v,
        None => d,
    }
}

/// Why a market could not be set up with these parameters, if it could not.
pub open spec fn init_rejection(
    epoch_duration: i64,
    fee_bps: u16,
    price_buffer_bps: u16,
    deposit_cutoff_hours: Option<i64>,
) -> Option<ForecastError> {
    let cutoff = or_default(deposit_cutoff_hours, DEFAULT_DEPOSIT_CUTOFF_HOURS);
    if fee_bps > MAX_FEE_BPS {
        Some(ForecastError::InvalidFee)
    } else if price_buffer_bps > MAX_PRICE_BUFFER_BPS {
        Some(ForecastError::InvalidPriceBuffer)
    } else if !(0 < epoch_duration <= MAX_EPOCH_DURATION) {
        Some(ForecastError::InvalidEpochDuration)
    } else if !(MIN_DEPOSIT_CUTOFF_HOURS <= cutoff <= MAX_DEPOSIT_CUTOFF_HOURS) {
        Some(ForecastError::InvalidDepositCutoff)
    } else {
        None
    }
}

/// A freshly set-up market: active, before its first epoch, with the authority
/// as treasury, the given parameters or their defaults, and the progressive fee
/// system switched off with every rate at zero.
pub open spec fn initial_config(
    authority: AccountId,
    bonding_vault: AccountId,
    token_mint: AccountId,
    bump: u8,
    epoch_duration: i64,
    fee_bps: u16,
    price_buffer_bps: u16,
    max_position_size: Option<u64>,
    max_vault_imbalance_bps: Option<u16>,
    require_multiple_oracles: Option<bool>,
    deposit_cutoff_hours: Option<i64>,
    enable_temporal_bonuses: Option<bool>,
) -> ForecastConfig {
    ForecastConfig {
        authority,
        current_epoch: 0,
        epoch_duration,
        fee_bps,
        price_buffer_bps,
        treasury: authority,
        bonding_vault,
        token_mint,
        is_active: true,
        max_position_size: or_default(max_position_size, MAX_POSITION_SIZE),
        max_vault_imbalance_bps: or_default(max_vault_imbalance_bps, MAX_VAULT_IMBALANCE_BPS),
        price_resolution_delay: PRICE_RESOLUTION_DELAY,
        require_multiple_oracles: or_default(require_multiple_oracles, true),
        min_oracle_sources: MIN_ORACLE_SOURCES,
        max_oracle_deviation_bps: MAX_ORACLE_DEVIATION_BPS,
        deposit_cutoff_hours: or_default(deposit_cutoff_hours, DEFAULT_DEPOSIT_CUTOFF_HOURS),
        early_bird_bonus_bps: EARLY_BIRD_BONUS_BPS,
        late_deposit_penalty_bps: LATE_DEPOSIT_PENALTY_BPS,
        commitment_period_hours: COMMITMENT_PERIOD_HOURS,
        enable_temporal_bonuses: or_default(enable_temporal_bonuses, true),
        base_treasury_fee_bps: 0,
        max_progressive_fee_bps: 0,
        consecutive_win_threshold: 0,
        cooldown_suggestion_threshold: 0,
        cooldown_bypass_fee_bps: 0,
        enable_progressive_fees: false,
        bump,
    }
}

/// Sets up a market. Fails, in this order, on a fee above 10%, a price buffer
/// above 5%, an epoch length outside (0, 7 days], and a deposit cutoff outside
/// [2, 6] hours.
pub fn initialize_forecast(
    authority: AccountId,
    bonding_vault: AccountId,
    token_mint: AccountId,
    bump: u8,
    epoch_duration: i64,
    fee_bps: u16,
    price_buffer_bps: u16,
    max_position_size: Option<u64>,
    max_vault_imbalance_bps: Option<u16>,
    require_multiple_oracles: Option<bool>,
    deposit_cutoff_hours: Option<i64>,
    enable_temporal_bonuses: Option<bool>,
) -> (r: Result<ForecastConfig, ForecastError>)
    ensures
        match r {
            Ok(c) => init_rejection(epoch_duration, fee_bps, price_buffer_bps, deposit_cutoff_hours)
                is None && c == initial_config(
                authority,
                bonding_vault,
                token_mint,
                bump,
                epoch_duration,
                fee_bps,
                price_buffer_bps,
                max_position_size,
                max_vault_imbalance_bps,
                require_multiple_oracles,
                deposit_cutoff_hours,
                enable_temporal_bonuses,
            ) && c.wf(),
            Err(e) => init_rejection(epoch_duration, fee_bps, price_buffer_bps, deposit_cutoff_hours)
                == Some(e),
        },
{
    if fee_bps > MAX_FEE_BPS {
        return Err(ForecastError::InvalidFee);
    }
    if price_buffer_bps > MAX_PRICE_BUFFER_BPS {
        return Err(ForecastError::InvalidPriceBuffer);
    }
    if !(epoch_duration > 0 && epoch_duration <= MAX_EPOCH_DURATION) {
        return Err(ForecastError::InvalidEpochDuration);
    }
    let cutoff_hours = match deposit_cutoff_hours {
        Some(h) => h,
        None => DEFAULT_DEPOSIT_CUTOFF_HOURS,
    };
    if !(cutoff_hours >= MIN_DEPOSIT_CUTOFF_HOURS && cutoff_hours <= MAX_DEPOSIT_CUTOFF_HOURS) {
        return Err(ForecastError::InvalidDepositCutoff);
    }
    Ok(
        ForecastConfig {
            authority,
            current_epoch: 0,
            epoch_duration,
            fee_bps,
            price_buffer_bps,
            treasury: authority,
            bonding_vault,
            token_mint,
            is_active: true,
            max_position_size: match max_position_size {
                Some(v) => v,
                None => MAX_POSITION_SIZE,
            },
            max_vault_imbalance_bps: match max_vault_imbalance_bps {
                Some(v) => v,
                None => MAX_VAULT_IMBALANCE_BPS,
            },
            price_resolution_delay: PRICE_RESOLUTION_DELAY,
            require_multiple_oracles: match require_multiple_oracles {
                Some(v) => v,
                None => true,
            },
            min_oracle_sources: MIN_ORACLE_SOURCES,
            max_oracle_deviation_bps: MAX_ORACLE_DEVIATION_BPS,
            deposit_cutoff_hours: cutoff_hours,
            early_bird_bonus_bps: EARLY_BIRD_BONUS_BPS,
            late_deposit_penalty_bps: LATE_DEPOSIT_PENALTY_BPS,
            commitment_period_hours: COMMITMENT_PERIOD_HOURS,
            enable_temporal_bonuses: match enable_temporal_bonuses {
                Some(v) => v,
                None => true,
            },
            base_treasury_fee_bps: 0,
            max_progressive_fee_bps: 0,
            consecutive_win_threshold: 0,
            cooldown_suggestion_threshold: 0,
            cooldown_bypass_fee_bps: 0,
            enable_progressive_fees: false,
            bump,
        },
    )
}

/// The timestamps of an epoch started at `now`: its end, its resolution time
/// and its deposit cutoff, if all of them fit in an `i64`.
pub open spec fn epoch_schedule(config: ForecastConfig, now: i64) -> Option<(i64, i64, i64)> {
    let end = now + config.epoch_duration;
    let resolution = end + config.price_resolution_delay;
    let cutoff = end - config.deposit_cutoff_hours * 3600;
    if i64::MIN <= end <= i64::MAX && i64::MIN <= resolution <= i64::MAX && i64::MIN <= cutoff
        <= i64::MAX {
        Some((end as i64, resolution as i64, cutoff as i64))
    } else {
        None
    }
}

/// Why a new epoch could not be started, if it could not.
pub open spec fn start_rejection(
    config: ForecastConfig,
    authority: AccountId,
    now: i64,
) -> Option<ForecastError> {
    if authority.key() != config.authority.key() {
        Some(ForecastError::Unauthorized)
    } else if !config.is_active {
        Some(ForecastError::MarketInactive)
    } else if config.current_epoch == u64::MAX || epoch_schedule(config, now) is None {
        Some(ForecastError::MathOverflow)
    } else {
        None
    }
}

/// Whether `e` is the epoch opened at `now` at `start_price`, numbered after the
/// market's last one, with empty vaults and no reports.
pub open spec fn is_opened_epoch(
    e: ForecastEpoch,
    config: ForecastConfig,
    start_price: u64,
    now: i64,
) -> bool {
    let (end, resolution, cutoff) = epoch_schedule(config, now)->Some_0;
    &&& e.epoch_id == config.current_epoch + 1
    &&& e.start_timestamp == now
    &&& e.end_timestamp == end
    &&& e.start_price == start_price
    &&& e.close_price == 0
    &&& e.up_vault_total == 0
    &&& e.down_vault_total == 0
    &&& e.total_amount == 0
    &&& !e.is_resolved
    &&& e.winning_position is None
    &&& e.fee_collected == 0
    &&& e.oracle_prices@.len() == 0
    &&& e.resolution_timestamp == resolution
    &&& !e.is_circuit_breaker_triggered
    &&& !e.suspicious_activity_detected
    &&& e.deposit_cutoff_timestamp == cutoff
    &&& e.early_deposit_count == 0
    &&& e.late_deposit_count == 0
    &&& e.deposit_count == 0
    &&& e.total_early_bird_bonuses == 0
    &&& e.total_late_penalties == 0
}

/// Opens the market's next epoch at `current_time`, signed by `authority`.
/// Fails when the signer is not the market's authority, when the market is
/// inactive, and when the epoch number or a timestamp would overflow.
pub fn start_new_epoch(
    config: &mut ForecastConfig,
    authority: AccountId,
    start_price: u64,
    current_time: i64,
) -> (r: Result<(ForecastEpoch, EpochStarted), ForecastError>)
    requires
        old(config).wf(),
    ensures
        match r {
            Ok((e, ev)) => {
                &&& start_rejection(*old(config), authority, current_time) is None
                &&& is_opened_epoch(e, *old(config), start_price, current_time)
                &&& e.wf()
                &&& *final(config) == (ForecastConfig {
                    current_epoch: e.epoch_id,
                    ..*old(config)
                })
                &&& ev == (EpochStarted {
                    epoch_id: e.epoch_id,
                    start_price,
                    start_timestamp: current_time,
                    end_timestamp: e.end_timestamp,
                    resolution_timestamp: e.resolution_timestamp,
                    deposit_cutoff_timestamp: e.deposit_cutoff_timestamp,
                })
            },
            Err(err) => start_rejection(*old(config), authority, current_time) == Some(err)
                && *final(config) == *old(config),
        },
{
    if authority != config.authority {
        return Err(ForecastError::Unauthorized);
    }
    if !config.is_active {
        return Err(ForecastError::MarketInactive);
    }
    if config.current_epoch == u64::MAX {
        return Err(ForecastError::MathOverflow);
    }
    let end = match current_time.checked_add(config.epoch_duration) {
        Some(v) => v,
        None => {
            return Err(ForecastError::MathOverflow);
        },
    };
    let resolution = match end.checked_add(config.price_resolution_delay) {
        Some(v) => v,
        None => {
            return Err(ForecastError::MathOverflow);
        },
    };
    let cutoff = match end.checked_sub(config.deposit_cutoff_hours * 3600) {
        Some(v) => v,
        None => {
            return Err(ForecastError::MathOverflow);
        },
    };
    config.current_epoch = config.current_epoch + 1;
    let epoch = ForecastEpoch {
        epoch_id: config.current_epoch,
        start_timestamp: current_time,
        end_timestamp: end,
        start_price,
        close_price: 0,
        up_vault_total: 0,
        down_vault_total: 0,
        total_amount: 0,
        is_resolved: false,
        winning_position: None,
        fee_collected: 0,
        oracle_prices: Vec::new(),
        resolution_timestamp: resolution,
        is_circuit_breaker_triggered: false,
        suspicious_activity_detected: false,
        deposit_cutoff_timestamp: cutoff,
        early_deposit_count: 0,
        late_deposit_count: 0,
        deposit_count: 0,
        total_early_bird_bonuses: 0,
        total_late_penalties: 0,
    };
    let event = EpochStarted {
        epoch_id: epoch.epoch_id,
        start_price,
        start_timestamp: current_time,
        end_timestamp: end,
        resolution_timestamp: resolution,
        deposit_cutoff_timestamp: cutoff,
    };
    Ok((epoch, event))
}

/// Halts an epoch: deposits and resolution are refused from then on. Only the
/// market's authority may do this.
pub fn trigger_circuit_breaker(
    config: &ForecastConfig,
    epoch: &mut ForecastEpoch,
    authority: AccountId,
) -> (r: Result<(), ForecastError>)
    ensures
        r is Err <==> authority.key() != config.authority.key(),
        r is Err ==> r == Err::<(), ForecastError>(ForecastError::Unauthorized) && *final(epoch)
            == *old(epoch),
        r is Ok ==> *final(epoch) == (ForecastEpoch {
            is_circuit_breaker_triggered: true,
            suspicious_activity_detected: true,
            ..*old(epoch)
        }),
{
    if authority != config.authority {
        return Err(ForecastError::Unauthorized);
    }
    epoch.is_circuit_breaker_triggered = true;
    epoch.suspicious_activity_detected = true;
    Ok(())
}

/// Why an oracle report could not be added, if it could not.
pub open spec fn report_rejection(
    config: ForecastConfig,
    epoch: ForecastEpoch,
    authority: AccountId,
    now: i64,
) -> Option<ForecastError> {
    if authority.key() != config.authority.key() {
        Some(ForecastError::Unauthorized)
    } else if epoch.is_resolved {
        Some(ForecastError::EpochAlreadyResolved)
    } else if now < epoch.end_timestamp {
        Some(ForecastError::EpochNotEnded)
    } else if epoch.oracle_prices@.len() >= MAX_ORACLE_REPORTS {
        Some(ForecastError::OracleReportsFull)
    } else {
        None
    }
}

/// Appends an oracle report, stamped `current_time`, to an ended, unresolved
/// epoch. Only the market's authority may do this, and at most ten reports are kept.
pub fn add_oracle_price(
    config: &ForecastConfig,
    epoch: &mut ForecastEpoch,
    authority: AccountId,
    price: u64,
    source: AccountId,
    confidence: u64,
    current_time: i64,
) -> (r: Result<(), ForecastError>)
    requires
        old(epoch).wf(),
    ensures
        match r {
            Ok(()) => {
                &&& report_rejection(*config, *old(epoch), authority, current_time) is None
                &&& final(epoch).oracle_prices@ == old(epoch).oracle_prices@.push(
                    OraclePrice { price, timestamp: current_time, source, confidence },
                )
                &&& *final(epoch) == (ForecastEpoch {
                    oracle_prices: final(epoch).oracle_prices,
                    ..*old(epoch)
                })
                &&& final(epoch).wf()
            },
            Err(e) => report_rejection(*config, *old(epoch), authority, current_time) == Some(e)
                && *final(epoch) == *old(epoch),
        },
{
    if authority != config.authority {
        return Err(ForecastError::Unauthorized);
    }
    if epoch.is_resolved {
        return Err(ForecastError::EpochAlreadyResolved);
    }
    if current_time < epoch.end_timestamp {
        return Err(ForecastError::EpochNotEnded);
    }
    if epoch.oracle_prices.len() >= MAX_ORACLE_REPORTS {
        return Err(ForecastError::OracleReportsFull);
    }
    epoch.oracle_prices.push(OraclePrice { price, timestamp: current_time, source, confidence });
    Ok(())
}

/// Vault totals `(up, down)` after `amount` is added to `side`.
pub open spec fn totals_after(epoch: ForecastEpoch, amount: u64, side: Position) -> (int, int) {
    match side {
        Position::Up => (epoch.up_vault_total + amount, epoch.down_vault_total as int),
        Position::Down => (epoch.up_vault_total as int, epoch.down_vault_total + amount),
    }
}

/// Share in basis points of the larger vault once `amount` is added to `side`.
pub open spec fn imbalance_after(epoch: ForecastEpoch, amount: u64, side: Position) -> int {
    let (up, down) = totals_after(epoch, amount, side);
    imbalance_of(if up >= down { up } else { down }, up + down)
}

/// The state checks that a deposit passes before its amount is weighed: an
/// active market, an open epoch that is neither halted nor flagged, a time
/// before the cutoff, an amount within the position limits, and a position
/// that, if it already holds stake, belongs to this user and epoch and side.
pub open spec fn deposit_gate(
    config: ForecastConfig,
    epoch: ForecastEpoch,
    pos: UserPosition,
    user: AccountId,
    amount: u64,
    side: Position,
    now: i64,
) -> Option<ForecastError> {
    if !config.is_active {
        Some(ForecastError::MarketInactive)
    } else if !(epoch.start_timestamp <= now < epoch.end_timestamp) {
        Some(ForecastError::EpochNotActive)
    } else if epoch.is_circuit_breaker_triggered {
        Some(ForecastError::CircuitBreakerTriggered)
    } else if epoch.suspicious_activity_detected {
        Some(ForecastError::SuspiciousActivityDetected)
    } else if !(now < epoch.deposit_cutoff_timestamp) {
        Some(ForecastError::DepositCutoffPassed)
    } else if amount < MIN_POSITION_SIZE {
        Some(ForecastError::PositionTooSmall)
    } else if amount > config.max_position_size {
        Some(ForecastError::PositionTooLarge)
    } else if pos.amount > 0 && pos.user.key() != user.key() {
        Some(ForecastError::Unauthorized)
    } else if pos.amount > 0 && pos.epoch_id != epoch.epoch_id {
        Some(ForecastError::EpochMismatch)
    } else if pos.amount > 0 && pos.position != side {
        Some(ForecastError::PositionMismatch)
    } else if epoch.total_amount + amount > u64::MAX || pos.amount + amount > u64::MAX {
        Some(ForecastError::MathOverflow)
    } else {
        None
    }
}

/// The timing of a deposit made at `now`.
pub open spec fn timing_at(epoch: ForecastEpoch, now: i64) -> DepositTiming {
    deposit_timing(
        now as int,
        epoch.start_timestamp as int,
        epoch.end_timestamp as int,
        epoch.deposit_cutoff_timestamp as int,
    )
}

/// End of the commitment period of a deposit made at `now`.
pub open spec fn commitment_end(config: ForecastConfig, now: i64) -> int {
    now + config.commitment_period_hours * 3600
}

/// Whether the depositor would hold more than half of its side: its own stake,
/// this deposit included, against the side's new total.
pub open spec fn exceeds_single_position_cap(
    epoch: ForecastEpoch,
    pos: UserPosition,
    amount: u64,
    side: Position,
) -> bool {
    let side_total = match side {
        Position::Up => totals_after(epoch, amount, side).0,
        Position::Down => totals_after(epoch, amount, side).1,
    };
    (pos.amount + amount) * 100 > MAX_SINGLE_POSITION_PERCENT * side_total
}

/// Whether taking the deposit would overflow a deposit counter, a bonus or
/// penalty total, or the end of the commitment period.
pub open spec fn deposit_overflows(
    config: ForecastConfig,
    epoch: ForecastEpoch,
    amount: u64,
    now: i64,
) -> bool {
    let timing = timing_at(epoch, now);
    let adjustment = temporal_adjustment(amount, timing, config).0;
    ||| epoch.deposit_count + 1 > u32::MAX
    ||| timing == DepositTiming::EarlyBird && (epoch.early_deposit_count + 1 > u32::MAX
        || epoch.total_early_bird_bonuses + adjustment > u64::MAX)
    ||| timing == DepositTiming::Late && (epoch.late_deposit_count + 1 > u32::MAX
        || epoch.total_late_penalties + adjustment > u64::MAX)
    ||| !(i64::MIN <= commitment_end(config, now) <= i64::MAX)
}

/// Why a deposit is refused, if it is: the state checks, then a larger vault
/// above `max_vault_imbalance_bps` of the total, then a depositor holding more
/// than half of its side, then a counter or timestamp that would overflow.
pub open spec fn deposit_rejection(
    config: ForecastConfig,
    epoch: ForecastEpoch,
    pos: UserPosition,
    user: AccountId,
    amount: u64,
    side: Position,
    now: i64,
) -> Option<ForecastError> {
    if deposit_gate(config, epoch, pos, user, amount, side, now) is Some {
        deposit_gate(config, epoch, pos, user, amount, side, now)
    } else if imbalance_after(epoch, amount, side) > config.max_vault_imbalance_bps {
        Some(ForecastError::VaultImbalanceExceeded)
    } else if exceeds_single_position_cap(epoch, pos, amount, side) {
        Some(ForecastError::SinglePositionTooLarge)
    } else if deposit_overflows(config, epoch, amount, now) {
        Some(ForecastError::MathOverflow)
    } else {
        None
    }
}

/// The epoch once a deposit of `amount` on `side` at `now` has been taken: the
/// vaults grow, the timing counters and bonus or penalty totals are updated, and
/// the suspicious-activity detector has run on the result.
pub open spec fn epoch_after_deposit(
    config: ForecastConfig,
    epoch: ForecastEpoch,
    amount: u64,
    side: Position,
    now: i64,
) -> ForecastEpoch {
    let timing = timing_at(epoch, now);
    let adjustment = temporal_adjustment(amount, timing, config).0;
    let (up, down) = totals_after(epoch, amount, side);
    let early = if timing == DepositTiming::EarlyBird {
        epoch.early_deposit_count + 1
    } else {
        epoch.early_deposit_count as int
    };
    let late = if timing == DepositTiming::Late {
        epoch.late_deposit_count + 1
    } else {
        epoch.late_deposit_count as int
    };
    ForecastEpoch {
        up_vault_total: up as u64,
        down_vault_total: down as u64,
        total_amount: (epoch.total_amount + amount) as u64,
        early_deposit_count: early as u32,
        late_deposit_count: late as u32,
        deposit_count: (epoch.deposit_count + 1) as u32,
        total_early_bird_bonuses: if timing == DepositTiming::EarlyBird {
            (epoch.total_early_bird_bonuses + adjustment) as u64
        } else {
            epoch.total_early_bird_bonuses
        },
        total_late_penalties: if timing == DepositTiming::Late {
            (epoch.total_late_penalties + adjustment) as u64
        } else {
            epoch.total_late_penalties
        },
        suspicious_activity_detected: epoch.suspicious_activity_detected || extreme_imbalance(
            up as u64,
            down as u64,
            (epoch.total_amount + amount) as u64,
        ) || temporal_gaming(late as u32, (epoch.deposit_count + 1) as u32),
        ..epoch
    }
}

/// The user's position once a deposit of `amount` on `side` at `now` has been
/// taken: the stake accumulates, and the timing flags, the bonus or penalty and
/// the commitment period are those of this deposit.
pub open spec fn position_after_deposit(
    config: ForecastConfig,
    epoch: ForecastEpoch,
    pos: UserPosition,
    user: AccountId,
    amount: u64,
    side: Position,
    now: i64,
) -> UserPosition {
    let timing = timing_at(epoch, now);
    UserPosition {
        user,
        epoch_id: epoch.epoch_id,
        position: side,
        amount: (pos.amount + amount) as u64,
        timestamp: now,
        has_claimed: false,
        is_early_bird: timing == DepositTiming::EarlyBird,
        is_late_deposit: timing == DepositTiming::Late,
        temporal_bonus: temporal_adjustment(amount, timing, config).0 as u64,
        commitment_end_time: commitment_end(config, now) as i64,
        ..pos
    }
}

/// Takes a deposit of `amount` on `side` from `user` at `current_time` into
/// `epoch`, adding it to `user_position` (the user's position in this epoch, or
/// a fresh one with no stake). On success the caller moves `amount` from the
/// user to the market's vault and publishes the returned record; on failure
/// nothing has changed.
pub fn deposit_forecast(
    config: &ForecastConfig,
    epoch: &mut ForecastEpoch,
    user_position: &mut UserPosition,
    user: AccountId,
    amount: u64,
    position: Position,
    current_time: i64,
) -> (r: Result<ForecastDeposit, ForecastError>)
    requires
        config.wf(),
        old(epoch).wf(),
    ensures
        match r {
            Ok(ev) => {
                &&& deposit_rejection(
                    *config,
                    *old(epoch),
                    *old(user_position),
                    user,
                    amount,
                    position,
                    current_time,
                ) is None
                &&& *final(epoch) == epoch_after_deposit(
                    *config,
                    *old(epoch),
                    amount,
                    position,
                    current_time,
                )
                &&& *final(user_position) == position_after_deposit(
                    *config,
                    *old(epoch),
                    *old(user_position),
                    user,
                    amount,
                    position,
                    current_time,
                )
                &&& final(epoch).wf()
                &&& final(user_position).within(*final(epoch))
                &&& ev == (ForecastDeposit {
                    user,
                    epoch_id: old(epoch).epoch_id,
                    amount,
                    position,
                    timestamp: current_time,
                    vault_imbalance_bps: imbalance_after(*old(epoch), amount, position) as u64,
                    deposit_timing: timing_at(*old(epoch), current_time),
                    temporal_adjustment: final(user_position).temporal_bonus,
                    is_bonus: temporal_adjustment(
                        amount,
                        timing_at(*old(epoch), current_time),
                        *config,
                    ).1,
                })
            },
            Err(e) => {
                &&& deposit_rejection(
                    *config,
                    *old(epoch),
                    *old(user_position),
                    user,
                    amount,
                    position,
                    current_time,
                ) == Some(e)
                &&& *final(epoch) == *old(epoch)
                &&& *final(user_position) == *old(user_position)
            },
        },
{
    if !config.is_active {
        return Err(ForecastError::MarketInactive);
    }
    if !epoch.is_active(current_time) {
        return Err(ForecastError::EpochNotActive);
    }
    if epoch.is_circuit_breaker_triggered {
        return Err(ForecastError::CircuitBreakerTriggered);
    }
    if epoch.suspicious_activity_detected {
        return Err(ForecastError::SuspiciousActivityDetected);
    }
    if !epoch.can_accept_deposits(current_time) {
        return Err(ForecastError::DepositCutoffPassed);
    }
    if amount < MIN_POSITION_SIZE {
        return Err(ForecastError::PositionTooSmall);
    }
    if amount > config.max_position_size {
        return Err(ForecastError::PositionTooLarge);
    }
    if user_position.amount > 0 && user_position.user != user {
        return Err(ForecastError::Unauthorized);
    }
    if user_position.amount > 0 && user_position.epoch_id != epoch.epoch_id {
        return Err(ForecastError::EpochMismatch);
    }
    if user_position.amount > 0 && user_position.position != position {
        return Err(ForecastError::PositionMismatch);
    }
    if amount > u64::MAX - epoch.total_amount || amount > u64::MAX - user_position.amount {
        return Err(ForecastError::MathOverflow);
    }
    let (new_up, new_down) = match position {
        Position::Up => (epoch.up_vault_total + amount, epoch.down_vault_total),
        Position::Down => (epoch.up_vault_total, epoch.down_vault_total + amount),
    };
    let new_total = new_up + new_down;
    let larger = if new_up >= new_down {
        new_up
    } else {
        new_down
    };
    let imbalance: u128 = (larger as u128 * 10000) / new_total as u128;
    if imbalance > config.max_vault_imbalance_bps as u128 {
        return Err(ForecastError::VaultImbalanceExceeded);
    }
    let side_total = match position {
        Position::Up => new_up,
        Position::Down => new_down,
    };
    let contribution = user_position.amount + amount;
    if contribution as u128 * 100 > MAX_SINGLE_POSITION_PERCENT as u128 * side_total as u128 {
        return Err(ForecastError::SinglePositionTooLarge);
    }
    if epoch.deposit_count == u32::MAX {
        return Err(ForecastError::MathOverflow);
    }
    let timing = epoch.get_deposit_timing_category(current_time);
    let (adjustment, is_bonus) = epoch.calculate_temporal_adjustment(amount, timing, config);
    match timing {
        DepositTiming::EarlyBird => {
            if epoch.early_deposit_count == u32::MAX || adjustment > u64::MAX
                - epoch.total_early_bird_bonuses {
                return Err(ForecastError::MathOverflow);
            }
        },
        DepositTiming::Late => {
            if epoch.late_deposit_count == u32::MAX || adjustment > u64::MAX
                - epoch.total_late_penalties {
                return Err(ForecastError::MathOverflow);
            }
        },
        DepositTiming::Normal => {},
    }
    let commitment: i128 = current_time as i128 + config.commitment_period_hours as i128 * 3600;
    if commitment < i64::MIN as i128 || commitment > i64::MAX as i128 {
        return Err(ForecastError::MathOverflow);
    }
    match timing {
        DepositTiming::EarlyBird => {
            epoch.early_deposit_count = epoch.early_deposit_count + 1;
            epoch.total_early_bird_bonuses = epoch.total_early_bird_bonuses + adjustment;
        },
        DepositTiming::Late => {
            epoch.late_deposit_count = epoch.late_deposit_count + 1;
            epoch.total_late_penalties = epoch.total_late_penalties + adjustment;
        },
        DepositTiming::Normal => {},
    }
    epoch.deposit_count = epoch.deposit_count + 1;
    epoch.up_vault_total = new_up;
    epoch.down_vault_total = new_down;
    epoch.total_amount = new_total;
    user_position.user = user;
    user_position.epoch_id = epoch.epoch_id;
    user_position.position = position;
    user_position.amount = contribution;
    user_position.timestamp = current_time;
    user_position.has_claimed = false;
    user_position.is_early_bird = timing == DepositTiming::EarlyBird;
    user_position.is_late_deposit = timing == DepositTiming::Late;
    user_position.temporal_bonus = adjustment;
    user_position.commitment_end_time = commitment as i64;
    epoch.detect_suspicious_activity();
    Ok(
        ForecastDeposit {
            user,
            epoch_id: epoch.epoch_id,
            amount,
            position,
            timestamp: current_time,
            vault_imbalance_bps: imbalance as u64,
            deposit_timing: timing,
            temporal_adjustment: adjustment,
            is_bonus,
        },
    )
}

/// The close price that settles an epoch: the oracle consensus when the market
/// requires several oracles, otherwise the price supplied by the authority.
pub open spec fn settlement_price(
    config: ForecastConfig,
    epoch: ForecastEpoch,
    manual_close_price: Option<u64>,
) -> Option<u64> {
    if config.require_multiple_oracles {
        oracle_consensus(
            epoch.oracle_prices@,
            config.max_oracle_deviation_bps,
            config.min_oracle_sources,
        )
    } else {
        manual_close_price
    }
}

/// Why an epoch cannot be resolved, if it cannot.
pub open spec fn resolve_rejection(
    config: ForecastConfig,
    epoch: ForecastEpoch,
    authority: AccountId,
    manual_close_price: Option<u64>,
    now: i64,
) -> Option<ForecastError> {
    if authority.key() != config.authority.key() {
        Some(ForecastError::Unauthorized)
    } else if !config.is_active {
        Some(ForecastError::MarketInactive)
    } else if epoch.is_resolved || now < epoch.resolution_timestamp
        || epoch.is_circuit_breaker_triggered {
        Some(ForecastError::CannotResolve)
    } else if config.require_multiple_oracles && (epoch.oracle_prices@.len()
        < config.min_oracle_sources || epoch.oracle_prices@.len() == 0) {
        Some(ForecastError::InsufficientOracleSources)
    } else if settlement_price(config, epoch, manual_close_price) is None {
        if config.require_multiple_oracles {
            Some(ForecastError::OraclePriceDeviationHigh)
        } else {
            Some(ForecastError::InvalidAmount)
        }
    } else {
        None
    }
}

/// The losing vault under `outcome`: none when neutral.
pub open spec fn losing_side_total(epoch: ForecastEpoch, outcome: EpochOutcome) -> int {
    match outcome {
        EpochOutcome::Up => epoch.down_vault_total as int,
        EpochOutcome::Down => epoch.up_vault_total as int,
        EpochOutcome::Neutral => 0,
    }
}

/// The result of resolving an epoch: its outcome, how the losing vault is split
/// (all zero for a neutral outcome), and the record to publish.
#[derive(Clone, Copy, Debug)]
pub struct Settlement {
    pub outcome: EpochOutcome,
    pub split: VaultSplit,
    pub event: EpochResolved,
}

/// Resolves an epoch at `current_time`, signed by `authority`. The close price is
/// the oracle consensus, or `manual_close_price` when the market does not require
/// several oracles. Too few reports and a report too far from the median are
/// told apart; either may be retried once more reports are in. On success the caller burns `split.burn_amount` from the
/// market's vault, pays `split.treasury_share` to the treasury and
/// `split.bonding_share` to the bonding vault, and publishes the record; on
/// failure nothing has changed.
pub fn resolve_epoch(
    config: &ForecastConfig,
    epoch: &mut ForecastEpoch,
    authority: AccountId,
    manual_close_price: Option<u64>,
    current_time: i64,
) -> (r: Result<Settlement, ForecastError>)
    requires
        config.wf(),
        old(epoch).wf(),
    ensures
        match r {
            Ok(s) => {
                let close = settlement_price(*config, *old(epoch), manual_close_price)->Some_0;
                &&& resolve_rejection(
                    *config,
                    *old(epoch),
                    authority,
                    manual_close_price,
                    current_time,
                ) is None
                &&& s.outcome == outcome_for(old(epoch).start_price, close, config.price_buffer_bps)
                &&& s.split == vault_split_of(
                    losing_side_total(*old(epoch), s.outcome),
                    config.fee_bps as int,
                )
                &&& *final(epoch) == (ForecastEpoch {
                    close_price: close,
                    is_resolved: true,
                    winning_position: Some(s.outcome),
                    fee_collected: s.split.fee_amount,
                    ..*old(epoch)
                })
                &&& final(epoch).wf()
                &&& s.event == (EpochResolved {
                    epoch_id: old(epoch).epoch_id,
                    close_price: close,
                    winning_position: s.outcome,
                    up_vault_total: old(epoch).up_vault_total,
                    down_vault_total: old(epoch).down_vault_total,
                    fee_collected: s.split.fee_amount,
                    price_buffer_bps: config.price_buffer_bps,
                    oracle_sources_used: old(epoch).oracle_prices@.len() as u8,
                    suspicious_activity_detected: old(epoch).suspicious_activity_detected,
                    timestamp: current_time,
                })
            },
            Err(e) => resolve_rejection(
                *config,
                *old(epoch),
                authority,
                manual_close_price,
                current_time,
            ) == Some(e) && *final(epoch) == *old(epoch),
        },
{
    if authority != config.authority {
        return Err(ForecastError::Unauthorized);
    }
    if !config.is_active {
        return Err(ForecastError::MarketInactive);
    }
    if !epoch.can_be_resolved(current_time) {
        return Err(ForecastError::CannotResolve);
    }
    let close_price = if config.require_multiple_oracles {
        let reports = epoch.oracle_prices.len();
        if reports < config.min_oracle_sources as usize || reports == 0 {
            return Err(ForecastError::InsufficientOracleSources);
        }
        match epoch.validate_oracle_prices(
            config.max_oracle_deviation_bps,
            config.min_oracle_sources,
        ) {
            Some(p) => p,
            None => {
                return Err(ForecastError::OraclePriceDeviationHigh);
            },
        }
    } else {
        match manual_close_price {
            Some(p) => p,
            None => {
                return Err(ForecastError::InvalidAmount);
            },
        }
    };
    let outcome = epoch.determine_outcome(close_price, config.price_buffer_bps);
    let losing = match outcome {
        EpochOutcome::Up => epoch.down_vault_total,
        EpochOutcome::Down => epoch.up_vault_total,
        EpochOutcome::Neutral => 0,
    };
    let split = split_losing_vault(losing, config.fee_bps);
    epoch.close_price = close_price;
    epoch.is_resolved = true;
    epoch.winning_position = Some(outcome);
    epoch.fee_collected = split.fee_amount;
    let event = EpochResolved {
        epoch_id: epoch.epoch_id,
        close_price,
        winning_position: outcome,
        up_vault_total: epoch.up_vault_total,
        down_vault_total: epoch.down_vault_total,
        fee_collected: split.fee_amount,
        price_buffer_bps: config.price_buffer_bps,
        oracle_sources_used: epoch.oracle_prices.len() as u8,
        suspicious_activity_detected: epoch.suspicious_activity_detected,
        timestamp: current_time,
    };
    Ok(Settlement { outcome, split, event })
}

/// The early-bird bonus or late penalty that a claim applies; none when
/// temporal bonuses are off.
pub open spec fn claim_adjustment(config: ForecastConfig, pos: UserPosition) -> int {
    if config.enable_temporal_bonuses {
        pos.temporal_bonus as int
    } else {
        0
    }
}

/// What a claim pays: the position's total claim under the flat fee, plus the
/// bonus of an early bird, or less the penalty of a late deposit (never below zero).
pub open spec fn claim_amount(config: ForecastConfig, epoch: ForecastEpoch, pos: UserPosition) -> int {
    let base = pos.total_claim(epoch, config.fee_bps);
    let adjustment = claim_adjustment(config, pos);
    if pos.is_early_bird && adjustment > 0 {
        base + adjustment
    } else if pos.is_late_deposit && adjustment > 0 {
        if base >= adjustment {
            base - adjustment
        } else {
            0
        }
    } else {
        base
    }
}

/// Why a claim is refused, if it is.
pub open spec fn claim_rejection(
    config: ForecastConfig,
    epoch: ForecastEpoch,
    pos: UserPosition,
    user: AccountId,
    now: i64,
) -> Option<ForecastError> {
    if pos.user.key() != user.key() {
        Some(ForecastError::Unauthorized)
    } else if pos.epoch_id != epoch.epoch_id {
        Some(ForecastError::EpochMismatch)
    } else if !epoch.is_resolved {
        Some(ForecastError::EpochNotResolved)
    } else if pos.has_claimed {
        Some(ForecastError::AlreadyClaimed)
    } else if config.commitment_period_hours > 0 && now < pos.commitment_end_time {
        Some(ForecastError::CommitmentPeriodActive)
    } else if claim_amount(config, epoch, pos) > u64::MAX {
        Some(ForecastError::MathOverflow)
    } else {
        None
    }
}

/// The position once claimed at `now`.
pub open spec fn position_after_claim(pos: UserPosition, now: i64) -> UserPosition {
    UserPosition { has_claimed: true, claimed_at: now, ..pos }
}

/// Pays out `user_position` in a resolved epoch at `current_time`, signed by
/// `user`. On success the caller moves `total_claim` from the market's vault to
/// the user and publishes the record; on failure nothing has changed.
pub fn claim_rewards(
    config: &ForecastConfig,
    epoch: &ForecastEpoch,
    user_position: &mut UserPosition,
    user: AccountId,
    current_time: i64,
) -> (r: Result<RewardsClaimed, ForecastError>)
    requires
        config.wf(),
        epoch.wf(),
        old(user_position).within(*epoch),
    ensures
        match r {
            Ok(ev) => {
                &&& claim_rejection(*config, *epoch, *old(user_position), user, current_time)
                    is None
                &&& *final(user_position) == position_after_claim(
                    *old(user_position),
                    current_time,
                )
                &&& ev.total_claim == claim_amount(*config, *epoch, *old(user_position))
                &&& ev == (RewardsClaimed {
                    user,
                    epoch_id: epoch.epoch_id,
                    original_stake: old(user_position).amount,
                    base_winnings: old(user_position).winnings(*epoch, config.fee_bps) as u64,
                    temporal_adjustment: claim_adjustment(*config, *old(user_position)) as u64,
                    progressive_fee: 0,
                    total_claim: ev.total_claim,
                    applied_fee_bps: config.fee_bps,
                    consecutive_wins: 0,
                    is_early_bird: old(user_position).is_early_bird,
                    is_late_deposit: old(user_position).is_late_deposit,
                    cooldown_suggested: false,
                    timestamp: current_time,
                })
            },
            Err(e) => claim_rejection(*config, *epoch, *old(user_position), user, current_time)
                == Some(e) && *final(user_position) == *old(user_position),
        },
{
    if user_position.user != user {
        return Err(ForecastError::Unauthorized);
    }
    if user_position.epoch_id != epoch.epoch_id {
        return Err(ForecastError::EpochMismatch);
    }
    if !epoch.is_resolved {
        return Err(ForecastError::EpochNotResolved);
    }
    if user_position.has_claimed {
        return Err(ForecastError::AlreadyClaimed);
    }
    if config.commitment_period_hours > 0 && current_time < user_position.commitment_end_time {
        return Err(ForecastError::CommitmentPeriodActive);
    }
    let base_winnings = user_position.calculate_winnings(epoch, config.fee_bps);
    let stake = user_position.amount;
    let adjustment = if config.enable_temporal_bonuses {
        user_position.temporal_bonus
    } else {
        0
    };
    let base = user_position.calculate_total_claim(epoch, config.fee_bps);
    let total_claim = if user_position.is_early_bird && adjustment > 0 {
        if adjustment > u64::MAX - base {
            return Err(ForecastError::MathOverflow);
        }
        base + adjustment
    } else if user_position.is_late_deposit && adjustment > 0 {
        base.saturating_sub(adjustment)
    } else {
        base
    };
    user_position.has_claimed = true;
    user_position.claimed_at = current_time;
    Ok(
        RewardsClaimed {
            user,
            epoch_id: epoch.epoch_id,
            original_stake: stake,
            base_winnings,
            temporal_adjustment: adjustment,
            progressive_fee: 0,
            total_claim,
            applied_fee_bps: config.fee_bps,
            consecutive_wins: 0,
            is_early_bird: user_position.is_early_bird,
            is_late_deposit: user_position.is_late_deposit,
            cooldown_suggested: false,
            timestamp: current_time,
        },
    )
}

/// Sets the protocol fee charged on losing vaults. Only the market's authority
/// may do this, and the fee may not exceed 10%.
pub fn update_treasury_fee(
    config: &mut ForecastConfig,
    authority: AccountId,
    new_fee_bps: u16,
) -> (r: Result<(), ForecastError>)
    requires
        old(config).wf(),
    ensures
        match r {
            Ok(()) => authority.key() == old(config).authority.key() && new_fee_bps <= MAX_FEE_BPS
                && *final(config) == (ForecastConfig { fee_bps: new_fee_bps, ..*old(config) }),
            Err(e) => *final(config) == *old(config) && if authority.key() != old(
                config,
            ).authority.key() {
                e == ForecastError::Unauthorized
            } else {
                new_fee_bps > MAX_FEE_BPS && e == ForecastError::InvalidFee
            },
        },
        final(config).wf(),
{
    if authority != config.authority {
        return Err(ForecastError::Unauthorized);
    }
    if new_fee_bps > MAX_FEE_BPS {
        return Err(ForecastError::InvalidFee);
    }
    config.fee_bps = new_fee_bps;
    Ok(())
}

/// Points the market's fee income at a new treasury. Only the market's
/// authority may do this.
pub fn update_treasury(
    config: &mut ForecastConfig,
    authority: AccountId,
    new_treasury: AccountId,
) -> (r: Result<(), ForecastError>)
    ensures
        r is Err <==> authority.key() != old(config).authority.key(),
        match r {
            Ok(()) => *final(config) == (ForecastConfig { treasury: new_treasury, ..*old(config) }),
            Err(e) => e == ForecastError::Unauthorized && *final(config) == *old(config),
        },
{
    if authority != config.authority {
        return Err(ForecastError::Unauthorized);
    }
    config.treasury = new_treasury;
    Ok(())
}

} // verus!
