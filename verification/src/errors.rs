use vstd::prelude::*;

verus! {

/// Caller-recoverable failures, returned as values the caller can branch on.
#[derive(Clone, Copy, Debug, PartialEq, Eq, Structural)]
pub enum CrowdfundingError {
    /// The component was already set up; `initialize` runs at most once.
    ContractAlreadyInitialized,
    /// A non-positive amount, or one whose acceptance would overflow.
    InvalidAmount,
    /// Minting was requested before any admin was recorded.
    UnauthorizedMinting,
    /// The sender holds less than the amount to be moved.
    InsufficientBalance,
    /// The platform's pause switch is on.
    ContractPaused,
    /// No pool carries the given identifier.
    PoolNotFound,
    /// The pool is not in the phase the operation needs.
    PoolNotActive,
    /// The pool's funding window is over.
    DeadlinePassed,
    /// Funds may only be withdrawn from a pool that reached its target.
    TargetNotReached,
    /// The required identity did not authorize the call.
    Unauthorized,
}

/// Hard validation faults on malformed pool configuration. Unlike the
/// recoverable errors above, a fault means the call was rejected outright:
/// none of its writes take effect and no identifier is consumed.
#[derive(Clone, Copy, Debug, PartialEq, Eq, Structural)]
pub enum HardFault {
    /// The description exceeds `MAX_DESCRIPTION_LENGTH`.
    DescriptionTooLong,
    /// The funding target must be strictly positive.
    NonPositiveTarget,
    /// The funding window must last at least one second.
    ZeroDuration,
}

/// How a pool-creation call can fail: with a recoverable error value, or
/// with a hard fault that discards the call entirely.
#[derive(Clone, Copy, Debug, PartialEq, Eq, Structural)]
pub enum PoolFailure {
    Rejected(CrowdfundingError),
    Aborted(HardFault),
}

} // verus!
