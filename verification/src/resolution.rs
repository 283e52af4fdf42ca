use vstd::prelude::*;

use crate::errors::ErrorCode;
use crate::types::{Market, MarketStatus, MAX_OUTCOMES_PER_MARKET};

verus! {

/// Time during which a proposed oracle outcome can be disputed (48 hours).
pub const DISPUTE_WINDOW_SECONDS: u64 = 172_800;

/// Time during which a disputed market is put to a community vote (72 hours).
pub const VOTING_PERIOD_SECONDS: u64 = 259_200;

/// Share of all votes, in basis points, that the leading outcome needs (60 %).
pub const MAJORITY_THRESHOLD_BPS: i128 = 6000;

// ---------------------------------------------------------------------------
// Vote counting
// ---------------------------------------------------------------------------

/// Sum of all tallies.
pub open spec fn tally_total(tallies: Seq<i128>) -> int
    decreases tallies.len(),
{
    if tallies.len() == 0 {
        0
    } else {
        tally_total(tallies.drop_last()) + tallies.last()
    }
}

/// Largest tally, or 0 when no tally is positive.
pub open spec fn tally_max(tallies: Seq<i128>) -> int
    decreases tallies.len(),
{
    if tallies.len() == 0 {
        0
    } else {
        let m = tally_max(tallies.drop_last());
        if tallies.last() > m {
            tallies.last() as int
        } else {
            m
        }
    }
}

/// The first outcome whose tally is the largest positive tally (0 when no
/// tally is positive).
pub open spec fn leading_outcome(tallies: Seq<i128>) -> int
    decreases tallies.len(),
{
    if tallies.len() == 0 {
        0
    } else if tallies.last() > tally_max(tallies.drop_last()) {
        tallies.len() - 1
    } else {
        leading_outcome(tallies.drop_last())
    }
}

/// Counting the votes stays within 128 bits: every running total fits, and
/// so does the leading tally scaled to basis points.
pub open spec fn tallies_fit(tallies: Seq<i128>) -> bool {
    &&& forall|k: int|
        0 <= k <= tallies.len() ==> i128::MIN <= #[trigger] tally_total(tallies.take(k)) <= i128::MAX
    &&& tally_max(tallies) * 10_000 <= i128::MAX
}

/// The leading outcome holds at least 60 % of a positive total.
pub open spec fn has_supermajority(tallies: Seq<i128>) -> bool {
    &&& tally_total(tallies) > 0
    &&& (tally_max(tallies) * 10_000) / tally_total(tallies) >= MAJORITY_THRESHOLD_BPS
}

/// Result of a community vote over the tallies of a market's outcomes.
pub open spec fn voting_outcome(tallies: Seq<i128>) -> Result<u32, ErrorCode> {
    if tallies.len() > MAX_OUTCOMES_PER_MARKET {
        Err(ErrorCode::TooManyOutcomes)
    } else if has_supermajority(tallies) {
        Ok(leading_outcome(tallies) as u32)
    } else {
        Err(ErrorCode::NoMajorityReached)
    }
}

/// The leading outcome, described without recursion: when some tally is
/// positive it is the first index holding the largest tally.
pub proof fn lemma_leading_outcome(tallies: Seq<i128>)
    ensures
        tally_max(tallies) >= 0,
        forall|j: int| 0 <= j < tallies.len() ==> tallies[j] <= tally_max(tallies),
        tally_max(tallies) > 0 ==> {
            &&& 0 <= leading_outcome(tallies) < tallies.len()
            &&& tallies[leading_outcome(tallies)] == tally_max(tallies)
            &&& forall|j: int| 0 <= j < leading_outcome(tallies) ==> tallies[j] < tally_max(tallies)
        },
        tally_max(tallies) == 0 ==> leading_outcome(tallies) == 0,
    decreases tallies.len(),
{
    if tallies.len() > 0 {
        let p = tallies.drop_last();
        lemma_leading_outcome(p);
        assert forall|j: int| 0 <= j < tallies.len() - 1 implies tallies[j] == p[j] by {}
    }
}

/// Counts the community vote: the leading outcome wins when it holds at
/// least 60 % of all votes; ties go to the lowest outcome index.
pub fn calculate_voting_outcome(tallies: &Vec<i128>) -> (r: Result<u32, ErrorCode>)
    requires
        tallies@.len() <= MAX_OUTCOMES_PER_MARKET ==> tallies_fit(tallies@),
    ensures
        r == voting_outcome(tallies@),
        r matches Ok(w) ==> {
            &&& w < tallies@.len()
            &&& tallies@[w as int] > 0
            &&& forall|j: int| 0 <= j < tallies@.len() ==> tallies@[j] <= tallies@[w as int]
            &&& forall|j: int| 0 <= j < w ==> tallies@[j] < tallies@[w as int]
            &&& tallies@[w as int] * 10_000 >= MAJORITY_THRESHOLD_BPS * tally_total(tallies@)
        },
        tallies@.len() <= MAX_OUTCOMES_PER_MARKET ==> ((r is Ok) <==> (tally_total(tallies@) > 0 && exists|k: int|
            0 <= k < tallies@.len() && #[trigger] tallies@[k] * 10_000 >= 6_000 * tally_total(tallies@))),
        r is Err ==> (r == Err::<u32, ErrorCode>(ErrorCode::TooManyOutcomes) <==> tallies@.len()
            > MAX_OUTCOMES_PER_MARKET),
{
    proof {
        if tallies@.len() <= MAX_OUTCOMES_PER_MARKET {
            crate::laws::lemma_vote_succeeds_exactly_on_supermajority(tallies@);
        }
    }
    let num_outcomes = tallies.len();
    if num_outcomes > MAX_OUTCOMES_PER_MARKET as usize {
        return Err(ErrorCode::TooManyOutcomes);
    }
    let mut total_votes: i128 = 0;
    let mut max_outcome: u32 = 0;
    let mut max_votes: i128 = 0;
    let mut outcome: usize = 0;
    while outcome < num_outcomes
        invariant
            num_outcomes == tallies@.len(),
            num_outcomes <= MAX_OUTCOMES_PER_MARKET,
            outcome <= num_outcomes,
            tallies_fit(tallies@),
            total_votes == tally_total(tallies@.take(outcome as int)),
            max_votes == tally_max(tallies@.take(outcome as int)),
            max_outcome == leading_outcome(tallies@.take(outcome as int)),
        decreases num_outcomes - outcome,
    {
        let tally = tallies[outcome];
        proof {
            let next = tallies@.take(outcome + 1);
            assert(next.drop_last() =~= tallies@.take(outcome as int));
            assert(next.last() == tally);
            assert(i128::MIN <= tally_total(next) <= i128::MAX);
        }
        total_votes = total_votes + tally;
        if tally > max_votes {
            max_votes = tally;
            max_outcome = outcome as u32;
        }
        outcome = outcome + 1;
    }
    proof {
        assert(tallies@.take(num_outcomes as int) =~= tallies@);
        lemma_leading_outcome(tallies@);
    }
    if total_votes <= 0 {
        return Err(ErrorCode::NoMajorityReached);
    }
    let majority_pct = (max_votes * 10_000) / total_votes;
    if majority_pct >= MAJORITY_THRESHOLD_BPS {
        proof {
            let a = max_votes * 10_000;
            let b = total_votes as int;
            assert(a >= MAJORITY_THRESHOLD_BPS * b) by (nonlinear_arith)
                requires
                    b > 0,
                    a / b >= MAJORITY_THRESHOLD_BPS,
            ;
            assert(max_votes > 0);
        }
        Ok(max_outcome)
    } else {
        Err(ErrorCode::NoMajorityReached)
    }
}

// ---------------------------------------------------------------------------
// Market transitions
// ---------------------------------------------------------------------------

/// `m` with an oracle outcome proposed at `now`.
pub open spec fn proposed(m: Market, outcome: u32, now: u64) -> Market {
    Market {
        status: MarketStatus::PendingResolution,
        winning_outcome: Some(outcome),
        pending_resolution_timestamp: Some(now),
        ..m
    }
}

/// `m` resolved at `now` in favour of `outcome`.
pub open spec fn resolved(m: Market, outcome: u32, now: u64) -> Market {
    Market { status: MarketStatus::Resolved, winning_outcome: Some(outcome), resolved_at: Some(now), ..m }
}

/// Verdict on an attempt to resolve `market` from its oracle at `now`.
pub open spec fn oracle_resolution(market: Option<Market>, now: u64, oracle_outcome: Option<u32>) -> Result<Market, ErrorCode> {
    match market {
        None => Err(ErrorCode::MarketNotFound),
        Some(m) => if m.status != MarketStatus::Active {
            Err(ErrorCode::MarketNotActive)
        } else if now < m.resolution_deadline {
            Err(ErrorCode::ResolutionNotReady)
        } else {
            match oracle_outcome {
                Some(o) => Ok(proposed(m, o, now)),
                None => Err(ErrorCode::OracleFailure),
            }
        },
    }
}

/// Verdict on finalizing `market` at `now`, given the vote tallies of its outcomes.
pub open spec fn finalization(market: Option<Market>, now: u64, tallies: Seq<i128>) -> Result<Market, ErrorCode> {
    match market {
        None => Err(ErrorCode::MarketNotFound),
        Some(m) => match m.status {
            MarketStatus::PendingResolution => match m.pending_resolution_timestamp {
                None => Err(ErrorCode::ResolutionNotReady),
                Some(t) => if now < t + DISPUTE_WINDOW_SECONDS {
                    Err(ErrorCode::DisputeWindowStillOpen)
                } else {
                    Ok(resolved(m, m.winning_outcome.unwrap(), now))
                },
            },
            MarketStatus::Disputed => match m.dispute_timestamp {
                None => Err(ErrorCode::MarketNotDisputed),
                Some(t) => if now < t + VOTING_PERIOD_SECONDS {
                    Err(ErrorCode::TimelockActive)
                } else {
                    match voting_outcome(tallies) {
                        Ok(w) => Ok(resolved(m, w, now)),
                        Err(e) => Err(e),
                    }
                },
            },
            MarketStatus::Resolved => Err(ErrorCode::CannotChangeOutcome),
            _ => Err(ErrorCode::ResolutionNotReady),
        },
    }
}

/// Verdict on the administrator resolving a deadlocked dispute of `market`
/// in favour of `winning_outcome` at `now`.
pub open spec fn admin_fallback(
    admin_check: Result<(), ErrorCode>,
    market: Option<Market>,
    now: u64,
    tallies: Seq<i128>,
    winning_outcome: u32,
) -> Result<Market, ErrorCode> {
    match admin_check {
        Err(e) => Err(e),
        Ok(_) => match market {
            None => Err(ErrorCode::MarketNotFound),
            Some(m) => if m.status != MarketStatus::Disputed {
                Err(ErrorCode::MarketNotDisputed)
            } else {
                match m.dispute_timestamp {
                    None => Err(ErrorCode::MarketNotDisputed),
                    Some(t) => if now < t + VOTING_PERIOD_SECONDS {
                        Err(ErrorCode::VotingPeriodNotElapsed)
                    } else {
                        match voting_outcome(tallies) {
                            Ok(_) => Err(ErrorCode::CannotChangeOutcome),
                            Err(ErrorCode::NoMajorityReached) => if winning_outcome >= m.option_count {
                                Err(ErrorCode::InvalidOutcome)
                            } else {
                                Ok(resolved(m, winning_outcome, now))
                            },
                            Err(e) => Err(e),
                        }
                    },
                }
            },
        },
    }
}

/// The tallies handed in are those of the market's outcomes, and counting
/// them stays within 128 bits.
pub open spec fn tallies_of(m: Market, tallies: Seq<i128>) -> bool {
    &&& tallies.len() == m.option_count
    &&& tallies.len() <= MAX_OUTCOMES_PER_MARKET ==> tallies_fit(tallies)
}

/// Inputs on which finalization is defined: the ends of the dispute window
/// and of the voting period are representable, a market whose dispute
/// window is over carries its proposed outcome, and a market whose voting
/// period is over comes with the tallies of its outcomes.
pub open spec fn finalization_defined(market: Option<Market>, now: u64, tallies: Seq<i128>) -> bool {
    market matches Some(m) ==> {
        &&& (m.status == MarketStatus::PendingResolution && m.pending_resolution_timestamp is Some) ==> {
            let t = m.pending_resolution_timestamp.unwrap();
            &&& t + DISPUTE_WINDOW_SECONDS <= u64::MAX
            &&& now >= t + DISPUTE_WINDOW_SECONDS ==> m.winning_outcome is Some
        }
        &&& (m.status == MarketStatus::Disputed && m.dispute_timestamp is Some) ==> {
            let t = m.dispute_timestamp.unwrap();
            &&& t + VOTING_PERIOD_SECONDS <= u64::MAX
            &&& now >= t + VOTING_PERIOD_SECONDS ==> tallies_of(m, tallies)
        }
    }
}

/// Inputs on which the administrative fallback is defined.
pub open spec fn admin_fallback_defined(
    admin_check: Result<(), ErrorCode>,
    market: Option<Market>,
    now: u64,
    tallies: Seq<i128>,
) -> bool {
    admin_check is Ok ==> match market {
        Some(m) => (m.status == MarketStatus::Disputed && m.dispute_timestamp is Some) ==> {
            let t = m.dispute_timestamp.unwrap();
            &&& t + VOTING_PERIOD_SECONDS <= u64::MAX
            &&& now >= t + VOTING_PERIOD_SECONDS ==> tallies_of(m, tallies)
        },
        None => true,
    }
}

/// Proposes the oracle's outcome for an active market whose resolution
/// deadline has passed; the proposal can then be disputed for 48 hours.
pub fn attempt_oracle_resolution(market: Option<Market>, now: u64, oracle_outcome: Option<u32>) -> (r: Result<Market, ErrorCode>)
    ensures
        r == oracle_resolution(market, now, oracle_outcome),
        r matches Ok(p) ==> (market matches Some(m) && m.status == MarketStatus::Active && now
            >= m.resolution_deadline && p.status == MarketStatus::PendingResolution && p.winning_outcome
            == oracle_outcome && p.pending_resolution_timestamp == Some(now) && p.id == m.id),
        (market matches Some(m) && m.status != MarketStatus::Active) ==> r == Err::<Market, ErrorCode>(
            ErrorCode::MarketNotActive,
        ),
{
    let mut market = match market {
        Some(m) => m,
        None => return Err(ErrorCode::MarketNotFound),
    };
    if market.status != MarketStatus::Active {
        return Err(ErrorCode::MarketNotActive);
    }
    if now < market.resolution_deadline {
        return Err(ErrorCode::ResolutionNotReady);
    }
    if let Some(oracle_outcome) = oracle_outcome {
        market.status = MarketStatus::PendingResolution;
        market.winning_outcome = Some(oracle_outcome);
        market.pending_resolution_timestamp = Some(now);
        Ok(market)
    } else {
        Err(ErrorCode::OracleFailure)
    }
}

/// Resolves a market for good: an undisputed oracle proposal once its
/// 48-hour dispute window is over, or a disputed market once its 72-hour
/// voting period is over and the vote reached a 60 % supermajority.
pub fn finalize_resolution(market: Option<Market>, now: u64, tallies: &Vec<i128>) -> (r: Result<Market, ErrorCode>)
    requires
        finalization_defined(market, now, tallies@),
    ensures
        r == finalization(market, now, tallies@),
        r matches Ok(m) ==> m.status == MarketStatus::Resolved && m.winning_outcome is Some
            && m.resolved_at == Some(now),
        match (market, r) {
            (Some(m), Ok(f)) => {
                &&& m.status == MarketStatus::Disputed ==> (f.winning_outcome matches Some(w) && w < tallies@.len()
                    && tally_total(tallies@) > 0 && tallies@[w as int] * 10_000 >= 6_000 * tally_total(tallies@))
                &&& m.status == MarketStatus::PendingResolution ==> f.winning_outcome == m.winning_outcome
            },
            _ => true,
        },
{
    proof {
        if tallies@.len() <= MAX_OUTCOMES_PER_MARKET {
            crate::laws::lemma_vote_succeeds_exactly_on_supermajority(tallies@);
        }
    }
    let mut market = match market {
        Some(m) => m,
        None => return Err(ErrorCode::MarketNotFound),
    };
    match market.status {
        MarketStatus::PendingResolution => {
            let pending_ts = match market.pending_resolution_timestamp {
                Some(t) => t,
                None => return Err(ErrorCode::ResolutionNotReady),
            };
            if now < pending_ts + DISPUTE_WINDOW_SECONDS {
                return Err(ErrorCode::DisputeWindowStillOpen);
            }
            let winning_outcome = market.winning_outcome.unwrap();
            market.status = MarketStatus::Resolved;
            market.resolved_at = Some(now);
            proof {
                assert(market.winning_outcome == Some(winning_outcome));
            }
            Ok(market)
        },
        MarketStatus::Disputed => {
            let dispute_ts = match market.dispute_timestamp {
                Some(t) => t,
                None => return Err(ErrorCode::MarketNotDisputed),
            };
            if now < dispute_ts + VOTING_PERIOD_SECONDS {
                return Err(ErrorCode::TimelockActive);
            }
            let winning_outcome = match calculate_voting_outcome(tallies) {
                Ok(w) => w,
                Err(e) => return Err(e),
            };
            market.status = MarketStatus::Resolved;
            market.winning_outcome = Some(winning_outcome);
            market.resolved_at = Some(now);
            Ok(market)
        },
        MarketStatus::Resolved => Err(ErrorCode::CannotChangeOutcome),
        _ => Err(ErrorCode::ResolutionNotReady),
    }
}

/// Administrative fallback for a disputed market whose vote failed to reach
/// the 60 % supermajority after the full voting period: the administrator
/// picks the winning outcome. A vote with a clear majority cannot be
/// overridden, and the chosen outcome must be one the market offers.
pub fn admin_fallback_resolution(
    admin_check: Result<(), ErrorCode>,
    market: Option<Market>,
    now: u64,
    tallies: &Vec<i128>,
    winning_outcome: u32,
) -> (r: Result<Market, ErrorCode>)
    requires
        admin_fallback_defined(admin_check, market, now, tallies@),
    ensures
        r == admin_fallback(admin_check, market, now, tallies@, winning_outcome),
        r matches Ok(m) ==> m.status == MarketStatus::Resolved && m.winning_outcome == Some(winning_outcome)
            && m.resolved_at == Some(now) && winning_outcome < m.option_count,
{
    match admin_check {
        Ok(()) => {},
        Err(e) => return Err(e),
    }
    let mut market = match market {
        Some(m) => m,
        None => return Err(ErrorCode::MarketNotFound),
    };
    if market.status != MarketStatus::Disputed {
        return Err(ErrorCode::MarketNotDisputed);
    }
    let dispute_ts = match market.dispute_timestamp {
        Some(t) => t,
        None => return Err(ErrorCode::MarketNotDisputed),
    };
    if now < dispute_ts + VOTING_PERIOD_SECONDS {
        return Err(ErrorCode::VotingPeriodNotElapsed);
    }
    match calculate_voting_outcome(tallies) {
        Ok(_) => {
            return Err(ErrorCode::CannotChangeOutcome);
        },
        Err(ErrorCode::NoMajorityReached) => {},
        Err(other) => return Err(other),
    }
    if winning_outcome >= market.option_count {
        return Err(ErrorCode::InvalidOutcome);
    }
    market.status = MarketStatus::Resolved;
    market.winning_outcome = Some(winning_outcome);
    market.resolved_at = Some(now);
    Ok(market)
}

} // verus!
