use vstd::prelude::*;

verus! {

/// Every way in which an oracle or resolution request can be refused.
#[derive(Clone, Copy, Debug, PartialEq, Eq, Structural)]
pub enum ErrorCode {
    NotAuthorized,
    MarketNotFound,
    MarketNotActive,
    MarketNotDisputed,
    ResolutionNotReady,
    DisputeWindowStillOpen,
    VotingPeriodNotElapsed,
    TimelockActive,
    CannotChangeOutcome,
    InvalidOutcome,
    NoMajorityReached,
    TooManyOutcomes,
    OracleFailure,
    InvalidTimestamp,
    StalePrice,
    ConfidenceTooLow,
}

} // verus!
