use vstd::prelude::*;

verus! {

/// Upper bound on the number of outcomes a market may offer.
pub const MAX_OUTCOMES_PER_MARKET: u32 = 32;

/// Life cycle of a market.
#[derive(Clone, Copy, Debug, PartialEq, Eq, Structural)]
pub enum MarketStatus {
    Active,
    PendingResolution,
    Disputed,
    Resolved,
    Cancelled,
}

/// The part of a stored market that the resolution rules read and write.
#[derive(Clone, Copy, Debug, PartialEq, Eq)]
pub struct Market {
    pub id: u64,
    pub status: MarketStatus,
    /// Ledger time from which oracle resolution may be attempted.
    pub resolution_deadline: u64,
    pub winning_outcome: Option<u32>,
    /// Ledger time at which an oracle outcome was proposed.
    pub pending_resolution_timestamp: Option<u64>,
    /// Ledger time at which the proposed outcome was disputed.
    pub dispute_timestamp: Option<u64>,
    pub resolved_at: Option<u64>,
    /// Number of outcomes (options) the market offers.
    pub option_count: u32,
}

} // verus!
