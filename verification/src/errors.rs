use vstd::prelude::*;

verus! {

/// Errors surfaced by the bridge HTLC engine and the cross-chain
/// dispatcher.  Input and state errors abort a mutator before any
/// effect; effect errors report a failure of an external collaborator.
#[derive(Clone, Debug)]
pub enum BridgeError {
    InvalidAmount,
    TimelockTooShort,
    TimelockTooLong,
    HashlockAlreadyUsed,
    InsufficientCanisterBalance,
    Unauthorized,
    OrderNotFound,
    InvalidOrderState,
    TimelockExpired,
    TimelockNotExpired,
    InvalidPreimage,
    FeeTooHigh,
    ReentrancyDetected,
    InvalidMessage,
    BridgeDisabled,
    BridgeNotConfigured,
    BridgeCallFailed(String),
    TransferFailed(String),
}

/// Errors surfaced by the Fusion order engine.
#[derive(Clone, Debug)]
pub enum FusionError {
    OrderNotFound,
    OrderAlreadyExists,
    InvalidOrderState,
    OrderExpired,
    UnauthorizedCaller,
    InvalidAmount,
    InvalidTimeRange,
    InvalidSecret,
    ReentrancyDetected,
    InsufficientSafetyDeposit,
    TimelockViolation,
    TransferFailed(String),
}

} // verus!
