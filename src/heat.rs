//! A simpler market settled in the HEAT token: the authority supplies the
//! close price and the outcome, and the losing vault pays only a protocol fee.
use vstd::prelude::*;

use crate::math::{apply_bps, bps_of};
use crate::state::AccountId;

verus! {

#[derive(Clone, Copy, Debug)]
pub struct HeatForecastConfig {
    pub authority: AccountId,
    pub current_epoch: u64,
    pub epoch_duration: i64,
    pub fee_bps: u16,
    pub price_buffer_bps: u16,
    pub treasury: AccountId,
    pub token_mint: AccountId,
    pub is_active: bool,
    pub max_position_size: u64,
    pub max_vault_imbalance_bps: u16,
    pub price_resolution_delay: i64,
    pub bump: u8,
    pub protocol_fee_bps: u16,
    pub protocol_treasury: AccountId,
}

#[derive(Clone, Copy, Debug)]
pub struct HeatForecastEpoch {
    pub epoch_id: u64,
    pub start_timestamp: i64,
    pub end_timestamp: i64,
    pub start_price: u64,
    pub close_price: u64,
    pub up_vault_total: u64,
    pub down_vault_total: u64,
    pub total_amount: u64,
    pub is_resolved: bool,
    pub winning_position: Option<HeatEpochOutcome>,
    pub fee_collected: u64,
    pub resolution_timestamp: i64,
    pub deposit_cutoff_timestamp: i64,
    pub bump: u8,
}

#[derive(Clone, Copy, Debug)]
pub struct HeatUserPosition {
    pub user: AccountId,
    pub epoch_id: u64,
    pub position: HeatPosition,
    pub amount: u64,
    pub timestamp: i64,
    pub has_claimed: bool,
    pub claimed_at: i64,
    pub bump: u8,
}

#[derive(Clone, Copy, Debug, PartialEq, Eq, Structural)]
pub enum HeatPosition {
    Up,
    Down,
}

#[derive(Clone, Copy, Debug, PartialEq, Eq, Structural)]
pub enum HeatEpochOutcome {
    Up,
    Down,
    Neutral,
}

#[derive(Clone, Copy, Debug, PartialEq, Eq, Structural)]
pub enum CustomError {
    MarketInactive,
    EpochAlreadyResolved,
    InvalidAmount,
    PositionTooLarge,
    DepositClosed,
    ResolutionDelayActive,
    EpochNotResolved,
    AlreadyClaimed,
    /// The signer is not the market's authority.
    Unauthorized,
    /// The fee is above 100%.
    InvalidFee,
    /// The position already holds stake on the other side.
    PositionMismatch,
    /// A total or a timestamp would leave the range of its type.
    MathOverflow,
}

impl HeatForecastConfig {
    /// The fee is a fraction of the losing vault.
    pub open spec fn wf(&self) -> bool {
        self.fee_bps <= 10000
    }

    pub fn is_well_formed(&self) -> (r: bool)
        ensures
            r == self.wf(),
    {
        self.fee_bps <= 10000
    }
}

impl HeatForecastEpoch {
    /// The vault totals add up, and a resolved epoch has an outcome.
    pub open spec fn wf(&self) -> bool {
        &&& self.up_vault_total + self.down_vault_total == self.total_amount
        &&& self.is_resolved ==> self.winning_position is Some
    }

    pub fn is_well_formed(&self) -> (r: bool)
        ensures
            r == self.wf(),
    {
        self.up_vault_total as u128 + self.down_vault_total as u128 == self.total_amount as u128
            && (!self.is_resolved || self.winning_position.is_some())
    }

    pub open spec fn side_total(&self, side: HeatPosition) -> u64 {
        match side {
            HeatPosition::Up => self.up_vault_total,
            HeatPosition::Down => self.down_vault_total,
        }
    }

    /// The losing vault under `outcome`: none when neutral.
    pub open spec fn losing_under(&self, outcome: HeatEpochOutcome) -> int {
        match outcome {
            HeatEpochOutcome::Up => self.down_vault_total as int,
            HeatEpochOutcome::Down => self.up_vault_total as int,
            HeatEpochOutcome::Neutral => 0,
        }
    }
}

impl HeatUserPosition {
    /// Whether this position's amount is part of the stake on its side of `epoch`.
    pub open spec fn within(&self, epoch: HeatForecastEpoch) -> bool {
        self.amount <= epoch.side_total(self.position)
    }

    pub fn is_within(&self, epoch: &HeatForecastEpoch) -> (r: bool)
        ensures
            r == self.within(*epoch),
    {
        match self.position {
            HeatPosition::Up => self.amount <= epoch.up_vault_total,
            HeatPosition::Down => self.amount <= epoch.down_vault_total,
        }
    }
}

/// Sets up a HEAT market, active and before its first epoch. Fails on a fee above 100%.
pub fn initialize_heat_forecast(
    authority: AccountId,
    treasury: AccountId,
    token_mint: AccountId,
    bump: u8,
    epoch_duration: i64,
    fee_bps: u16,
    price_buffer_bps: u16,
    max_position_size: u64,
    max_vault_imbalance_bps: u16,
    price_resolution_delay: i64,
    protocol_fee_bps: u16,
    protocol_treasury: AccountId,
) -> (r: Result<HeatForecastConfig, CustomError>)
    ensures
        r is Err <==> fee_bps > 10000,
        r is Err ==> r == Err::<HeatForecastConfig, CustomError>(CustomError::InvalidFee),
        r is Ok ==> r == Ok::<HeatForecastConfig, CustomError>(
            HeatForecastConfig {
                authority,
                current_epoch: 0,
                epoch_duration,
                fee_bps,
                price_buffer_bps,
                treasury,
                token_mint,
                is_active: true,
                max_position_size,
                max_vault_imbalance_bps,
                price_resolution_delay,
                bump,
                protocol_fee_bps,
                protocol_treasury,
            },
        ),
{
    if fee_bps > 10000 {
        return Err(CustomError::InvalidFee);
    }
    Ok(
        HeatForecastConfig {
            authority,
            current_epoch: 0,
            epoch_duration,
            fee_bps,
            price_buffer_bps,
            treasury,
            token_mint,
            is_active: true,
            max_position_size,
            max_vault_imbalance_bps,
            price_resolution_delay,
            bump,
            protocol_fee_bps,
            protocol_treasury,
        },
    )
}

/// Why a HEAT epoch cannot be started, if it cannot.
pub open spec fn heat_start_rejection(
    config: HeatForecastConfig,
    authority: AccountId,
    end_timestamp: i64,
) -> Option<CustomError> {
    if authority.key() != config.authority.key() {
        Some(CustomError::Unauthorized)
    } else if !config.is_active {
        Some(CustomError::MarketInactive)
    } else if config.current_epoch == u64::MAX || !(i64::MIN <= end_timestamp
        + config.price_resolution_delay <= i64::MAX) {
        Some(CustomError::MathOverflow)
    } else {
        None
    }
}

/// Opens the next HEAT epoch at `current_time`, with the given end and deposit
/// cutoff, signed by `authority`.
pub fn start_new_heat_epoch(
    config: &mut HeatForecastConfig,
    authority: AccountId,
    start_price: u64,
    end_timestamp: i64,
    deposit_cutoff_timestamp: i64,
    current_time: i64,
    bump: u8,
) -> (r: Result<HeatForecastEpoch, CustomError>)
    ensures
        match r {
            Ok(e) => {
                &&& heat_start_rejection(*old(config), authority, end_timestamp) is None
                &&& *final(config) == (HeatForecastConfig {
                    current_epoch: (old(config).current_epoch + 1) as u64,
                    ..*old(config)
                })
                &&& e == (HeatForecastEpoch {
                    epoch_id: (old(config).current_epoch + 1) as u64,
                    start_timestamp: current_time,
                    end_timestamp,
                    start_price,
                    close_price: 0,
                    up_vault_total: 0,
                    down_vault_total: 0,
                    total_amount: 0,
                    is_resolved: false,
                    winning_position: None,
                    fee_collected: 0,
                    resolution_timestamp: (end_timestamp + old(config).price_resolution_delay) as i64,
                    deposit_cutoff_timestamp,
                    bump,
                })
                &&& e.wf()
            },
            Err(err) => heat_start_rejection(*old(config), authority, end_timestamp) == Some(err)
                && *final(config) == *old(config),
        },
{
    if authority != config.authority {
        return Err(CustomError::Unauthorized);
    }
    if !config.is_active {
        return Err(CustomError::MarketInactive);
    }
    if config.current_epoch == u64::MAX {
        return Err(CustomError::MathOverflow);
    }
    let resolution = match end_timestamp.checked_add(config.price_resolution_delay) {
        Some(v) => v,
        None => {
            return Err(CustomError::MathOverflow);
        },
    };
    config.current_epoch = config.current_epoch + 1;
    Ok(
        HeatForecastEpoch {
            epoch_id: config.current_epoch,
            start_timestamp: current_time,
            end_timestamp,
            start_price,
            close_price: 0,
            up_vault_total: 0,
            down_vault_total: 0,
            total_amount: 0,
            is_resolved: false,
            winning_position: None,
            fee_collected: 0,
            resolution_timestamp: resolution,
            deposit_cutoff_timestamp,
            bump,
        },
    )
}

/// Why a HEAT deposit is refused, if it is.
pub open spec fn heat_deposit_rejection(
    config: HeatForecastConfig,
    epoch: HeatForecastEpoch,
    pos: HeatUserPosition,
    side: HeatPosition,
    amount: u64,
    now: i64,
) -> Option<CustomError> {
    if !config.is_active {
        Some(CustomError::MarketInactive)
    } else if epoch.is_resolved {
        Some(CustomError::EpochAlreadyResolved)
    } else if amount == 0 {
        Some(CustomError::InvalidAmount)
    } else if amount > config.max_position_size {
        Some(CustomError::PositionTooLarge)
    } else if now >= epoch.deposit_cutoff_timestamp {
        Some(CustomError::DepositClosed)
    } else if pos.amount > 0 && pos.position != side {
        Some(CustomError::PositionMismatch)
    } else if epoch.total_amount + amount > u64::MAX || pos.amount + amount > u64::MAX {
        Some(CustomError::MathOverflow)
    } else {
        None
    }
}

/// Takes a HEAT deposit of `amount` on `position` from `user` at `current_time`,
/// adding it to `user_position`. On success the caller moves `amount` from the
/// user to the market's vault; on failure nothing has changed.
pub fn deposit_heat(
    config: &HeatForecastConfig,
    epoch: &mut HeatForecastEpoch,
    user_position: &mut HeatUserPosition,
    user: AccountId,
    position: HeatPosition,
    amount: u64,
    current_time: i64,
    bump: u8,
) -> (r: Result<(), CustomError>)
    requires
        old(epoch).wf(),
    ensures
        match r {
            Ok(()) => {
                &&& heat_deposit_rejection(
                    *config,
                    *old(epoch),
                    *old(user_position),
                    position,
                    amount,
                    current_time,
                ) is None
                &&& *final(epoch) == (HeatForecastEpoch {
                    up_vault_total: if position == HeatPosition::Up {
                        (old(epoch).up_vault_total + amount) as u64
                    } else {
                        old(epoch).up_vault_total
                    },
                    down_vault_total: if position == HeatPosition::Down {
                        (old(epoch).down_vault_total + amount) as u64
                    } else {
                        old(epoch).down_vault_total
                    },
                    total_amount: (old(epoch).total_amount + amount) as u64,
                    ..*old(epoch)
                })
                &&& *final(user_position) == (HeatUserPosition {
                    user,
                    epoch_id: old(epoch).epoch_id,
                    position,
                    amount: (old(user_position).amount + amount) as u64,
                    timestamp: current_time,
                    has_claimed: false,
                    claimed_at: 0,
                    bump,
                })
                &&& final(epoch).wf()
                &&& old(user_position).within(*old(epoch)) ==> final(user_position).within(
                    *final(epoch),
                )
            },
            Err(e) => heat_deposit_rejection(
                *config,
                *old(epoch),
                *old(user_position),
                position,
                amount,
                current_time,
            ) == Some(e) && *final(epoch) == *old(epoch) && *final(user_position) == *old(
                user_position,
            ),
        },
{
    if !config.is_active {
        return Err(CustomError::MarketInactive);
    }
    if epoch.is_resolved {
        return Err(CustomError::EpochAlreadyResolved);
    }
    if amount == 0 {
        return Err(CustomError::InvalidAmount);
    }
    if amount > config.max_position_size {
        return Err(CustomError::PositionTooLarge);
    }
    if current_time >= epoch.deposit_cutoff_timestamp {
        return Err(CustomError::DepositClosed);
    }
    if user_position.amount > 0 && user_position.position != position {
        return Err(CustomError::PositionMismatch);
    }
    if amount > u64::MAX - epoch.total_amount || amount > u64::MAX - user_position.amount {
        return Err(CustomError::MathOverflow);
    }
    match position {
        HeatPosition::Up => epoch.up_vault_total = epoch.up_vault_total + amount,
        HeatPosition::Down => epoch.down_vault_total = epoch.down_vault_total + amount,
    }
    epoch.total_amount = epoch.total_amount + amount;
    user_position.user = user;
    user_position.epoch_id = epoch.epoch_id;
    user_position.position = position;
    user_position.amount = user_position.amount + amount;
    user_position.timestamp = current_time;
    user_position.has_claimed = false;
    user_position.claimed_at = 0;
    user_position.bump = bump;
    Ok(())
}

/// Why a HEAT epoch cannot be resolved, if it cannot.
pub open spec fn heat_resolve_rejection(
    config: HeatForecastConfig,
    epoch: HeatForecastEpoch,
    authority: AccountId,
    now: i64,
) -> Option<CustomError> {
    if authority.key() != config.authority.key() {
        Some(CustomError::Unauthorized)
    } else if epoch.is_resolved {
        Some(CustomError::EpochAlreadyResolved)
    } else if now < epoch.resolution_timestamp {
        Some(CustomError::ResolutionDelayActive)
    } else {
        None
    }
}

/// Records the close price and the outcome that the authority supplies, and the
/// fee taken from the losing vault.
pub fn resolve_heat_epoch(
    config: &HeatForecastConfig,
    epoch: &mut HeatForecastEpoch,
    authority: AccountId,
    close_price: u64,
    outcome: HeatEpochOutcome,
    current_time: i64,
) -> (r: Result<(), CustomError>)
    requires
        config.wf(),
        old(epoch).wf(),
    ensures
        match r {
            Ok(()) => {
                &&& heat_resolve_rejection(*config, *old(epoch), authority, current_time) is None
                &&& *final(epoch) == (HeatForecastEpoch {
                    close_price,
                    is_resolved: true,
                    winning_position: Some(outcome),
                    fee_collected: bps_of(old(epoch).losing_under(outcome), config.fee_bps as int)
                        as u64,
                    ..*old(epoch)
                })
                &&& final(epoch).wf()
            },
            Err(e) => heat_resolve_rejection(*config, *old(epoch), authority, current_time)
                == Some(e) && *final(epoch) == *old(epoch),
        },
{
    if authority != config.authority {
        return Err(CustomError::Unauthorized);
    }
    if epoch.is_resolved {
        return Err(CustomError::EpochAlreadyResolved);
    }
    if current_time < epoch.resolution_timestamp {
        return Err(CustomError::ResolutionDelayActive);
    }
    let losing = match outcome {
        HeatEpochOutcome::Up => epoch.down_vault_total,
        HeatEpochOutcome::Down => epoch.up_vault_total,
        HeatEpochOutcome::Neutral => 0,
    };
    epoch.close_price = close_price;
    epoch.is_resolved = true;
    epoch.winning_position = Some(outcome);
    epoch.fee_collected = apply_bps(losing, config.fee_bps);
    Ok(())
}

/// Winnings and total claim of a HEAT position: a neutral outcome returns the
/// stake, a loss pays nothing, and a win pays the stake plus its proportional
/// share of the losing vault after the fee.
pub open spec fn heat_winnings(
    pos: HeatUserPosition,
    epoch: HeatForecastEpoch,
    config: HeatForecastConfig,
) -> (int, int) {
    if !epoch.is_resolved || epoch.winning_position is None {
        (0, 0)
    } else {
        let outcome = epoch.winning_position->Some_0;
        if outcome == HeatEpochOutcome::Neutral {
            (0, pos.amount as int)
        } else if !((outcome == HeatEpochOutcome::Up && pos.position == HeatPosition::Up) || (
        outcome == HeatEpochOutcome::Down && pos.position == HeatPosition::Down)) {
            (0, 0)
        } else {
            let losing = epoch.losing_under(outcome);
            let winning = epoch.side_total(pos.position) as int;
            if winning == 0 || losing == 0 {
                (0, 0)
            } else {
                let prize = losing - bps_of(losing, config.fee_bps as int);
                let share = prize * pos.amount / winning;
                (share, pos.amount + share)
            }
        }
    }
}

/// Winnings and total claim of a HEAT position.
pub fn calculate_heat_winnings(
    user_position: &HeatUserPosition,
    epoch: &HeatForecastEpoch,
    config: &HeatForecastConfig,
) -> (r: (u64, u64))
    requires
        config.wf(),
        epoch.wf(),
        user_position.within(*epoch),
    ensures
        (r.0 as int, r.1 as int) == heat_winnings(*user_position, *epoch, *config),
{
    if !epoch.is_resolved || epoch.winning_position.is_none() {
        return (0, 0);
    }
    let outcome = match epoch.winning_position {
        Some(o) => o,
        None => HeatEpochOutcome::Neutral,
    };
    if outcome == HeatEpochOutcome::Neutral {
        return (0, user_position.amount);
    }
    let won = match (outcome, user_position.position) {
        (HeatEpochOutcome::Up, HeatPosition::Up) => true,
        (HeatEpochOutcome::Down, HeatPosition::Down) => true,
        _ => false,
    };
    if !won {
        return (0, 0);
    }
    let losing = match outcome {
        HeatEpochOutcome::Up => epoch.down_vault_total,
        HeatEpochOutcome::Down => epoch.up_vault_total,
        HeatEpochOutcome::Neutral => 0,
    };
    let winning = match user_position.position {
        HeatPosition::Up => epoch.up_vault_total,
        HeatPosition::Down => epoch.down_vault_total,
    };
    if winning == 0 || losing == 0 {
        return (0, 0);
    }
    let fee = apply_bps(losing, config.fee_bps);
    let prize = losing - fee;
    proof {
        crate::payout::lemma_share_bounded(prize as int, user_position.amount as int, winning as int);
        crate::payout::lemma_mul_fits_u128(prize as int, user_position.amount as int);
    }
    let share = ((prize as u128 * user_position.amount as u128) / winning as u128) as u64;
    (share, user_position.amount + share)
}

/// Why a HEAT claim is refused, if it is.
pub open spec fn heat_claim_rejection(epoch: HeatForecastEpoch, pos: HeatUserPosition) -> Option<
    CustomError,
> {
    if !epoch.is_resolved {
        Some(CustomError::EpochNotResolved)
    } else if pos.has_claimed {
        Some(CustomError::AlreadyClaimed)
    } else {
        None
    }
}

/// Pays out a HEAT position at `current_time` and returns the amount the caller
/// moves from the market's vault to the user; on failure nothing has changed.
pub fn claim_heat_rewards(
    config: &HeatForecastConfig,
    epoch: &HeatForecastEpoch,
    user_position: &mut HeatUserPosition,
    current_time: i64,
) -> (r: Result<u64, CustomError>)
    requires
        config.wf(),
        epoch.wf(),
        old(user_position).within(*epoch),
    ensures
        match r {
            Ok(total) => {
                &&& heat_claim_rejection(*epoch, *old(user_position)) is None
                &&& total == heat_winnings(*old(user_position), *epoch, *config).1
                &&& *final(user_position) == (HeatUserPosition {
                    has_claimed: true,
                    claimed_at: current_time,
                    ..*old(user_position)
                })
            },
            Err(e) => heat_claim_rejection(*epoch, *old(user_position)) == Some(e)
                && *final(user_position) == *old(user_position),
        },
{
    if !epoch.is_resolved {
        return Err(CustomError::EpochNotResolved);
    }
    if user_position.has_claimed {
        return Err(CustomError::AlreadyClaimed);
    }
    let (_, total_claim) = calculate_heat_winnings(user_position, epoch, config);
    user_position.has_claimed = true;
    user_position.claimed_at = current_time;
    Ok(total_claim)
}

} // verus!
