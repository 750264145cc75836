//! Why an operation of the market was refused.
use vstd::prelude::*;

verus! {

#[derive(Clone, Copy, Debug, PartialEq, Eq, Structural)]
pub enum ForecastError {
    InvalidFee,
    InvalidEpochDuration,
    InvalidPriceBuffer,
    MarketInactive,
    InvalidAmount,
    EpochClosed,
    AlreadyClaimed,
    PositionMismatch,
    CannotResolve,
    EpochNotResolved,
    Unauthorized,
    PositionTooSmall,
    PositionTooLarge,
    VaultImbalanceExceeded,
    ResolutionDelayActive,
    CircuitBreakerTriggered,
    InsufficientOracleSources,
    OraclePriceDeviationHigh,
    SuspiciousActivityDetected,
    OraclePriceStale,
    SinglePositionTooLarge,
    TooManyLargePositions,
    EpochNotActive,
    EpochAlreadyResolved,
    EpochNotEnded,
    DepositCutoffPassed,
    CommitmentPeriodActive,
    TemporalGamingDetected,
    InvalidDepositCutoff,
    /// The epoch already holds as many oracle reports as it can.
    OracleReportsFull,
    /// The position belongs to another epoch.
    EpochMismatch,
    /// The risk model denies this wallet a cooldown bypass.
    CooldownBypassBlocked,
    /// A total or a timestamp would leave the range of its type.
    MathOverflow,
}

} // verus!
