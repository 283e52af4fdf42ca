use vstd::prelude::*;

use crate::errors::ErrorCode;
use crate::oracles::{price_magnitude, price_outcome, price_verdict, PythPrice};
use crate::resolution::{
    admin_fallback, finalization, lemma_leading_outcome, leading_outcome, oracle_resolution, proposed, resolved,
    tally_max, tally_total, voting_outcome, DISPUTE_WINDOW_SECONDS, VOTING_PERIOD_SECONDS,
};
use vstd::arithmetic::div_mod::{lemma_fundamental_div_mod, lemma_mod_bound};
use crate::types::{Market, MarketStatus, MAX_OUTCOMES_PER_MARKET};

verus! {

/// A resolved market is final: neither the oracle path, nor finalization,
/// nor the administrative fallback changes it again.
pub proof fn lemma_resolved_market_is_final(
    m: Market,
    now: u64,
    oracle_outcome: Option<u32>,
    tallies: Seq<i128>,
    admin_check: Result<(), ErrorCode>,
    winning_outcome: u32,
)
    requires
        m.status == MarketStatus::Resolved,
    ensures
        oracle_resolution(Some(m), now, oracle_outcome) == Err::<Market, ErrorCode>(ErrorCode::MarketNotActive),
        finalization(Some(m), now, tallies) == Err::<Market, ErrorCode>(ErrorCode::CannotChangeOutcome),
        admin_fallback(admin_check, Some(m), now, tallies, winning_outcome) is Err,
{
}

/// The administrator can only decide a dispute whose vote deadlocked:
/// a vote that reached a supermajority is never overridden.
pub proof fn lemma_admin_fallback_needs_deadlock(
    admin_check: Result<(), ErrorCode>,
    market: Option<Market>,
    now: u64,
    tallies: Seq<i128>,
    winning_outcome: u32,
)
    ensures
        admin_fallback(admin_check, market, now, tallies, winning_outcome) is Ok ==> {
            &&& admin_check is Ok
            &&& voting_outcome(tallies) == Err::<u32, ErrorCode>(ErrorCode::NoMajorityReached)
        },
{
}

/// Once the voting period of a dispute is over, exactly one way to resolve
/// it is open: finalization when the vote reached a supermajority, the
/// administrative fallback (with an offered outcome) when it did not.
/// Stakes in a disputed market are therefore never stuck.
pub proof fn lemma_dispute_has_exactly_one_resolution(m: Market, now: u64, tallies: Seq<i128>, winning_outcome: u32)
    requires
        m.status == MarketStatus::Disputed,
        m.dispute_timestamp matches Some(t) && now >= t + VOTING_PERIOD_SECONDS,
        tallies.len() == m.option_count,
        m.option_count <= MAX_OUTCOMES_PER_MARKET,
        winning_outcome < m.option_count,
    ensures
        (finalization(Some(m), now, tallies) is Ok) != (admin_fallback(
            Ok(()),
            Some(m),
            now,
            tallies,
            winning_outcome,
        ) is Ok),
{
}

/// An oracle proposal holds for the whole dispute window, and finalizing
/// it afterwards resolves the market in favour of the oracle's outcome.
pub proof fn lemma_proposal_then_finalization(m: Market, proposed_at: u64, outcome: u32, now: u64, tallies: Seq<i128>)
    requires
        m.status == MarketStatus::Active,
        proposed_at >= m.resolution_deadline,
    ensures
        oracle_resolution(Some(m), proposed_at, Some(outcome)) == Ok::<Market, ErrorCode>(
            proposed(m, outcome, proposed_at),
        ),
        now < proposed_at + DISPUTE_WINDOW_SECONDS ==> finalization(Some(proposed(m, outcome, proposed_at)), now, tallies)
            == Err::<Market, ErrorCode>(ErrorCode::DisputeWindowStillOpen),
        now >= proposed_at + DISPUTE_WINDOW_SECONDS ==> finalization(Some(proposed(m, outcome, proposed_at)), now, tallies)
            == Ok::<Market, ErrorCode>(resolved(proposed(m, outcome, proposed_at), outcome, now)),
{
}

/// No market is finalized early: an oracle proposal only after its dispute
/// window, a disputed market only after its voting period.
pub proof fn lemma_no_early_finalization(m: Market, now: u64, tallies: Seq<i128>)
    ensures
        finalization(Some(m), now, tallies) is Ok ==> {
            ||| m.status == MarketStatus::PendingResolution && (m.pending_resolution_timestamp matches Some(t)
                && now >= t + DISPUTE_WINDOW_SECONDS)
            ||| m.status == MarketStatus::Disputed && (m.dispute_timestamp matches Some(t)
                && now >= t + VOTING_PERIOD_SECONDS)
        },
{
}

// ---------------------------------------------------------------------------
// Arithmetic facts used below
// ---------------------------------------------------------------------------

/// For a positive total, a share rounded down reaches a threshold exactly
/// when the unrounded share does.
pub proof fn lemma_rounded_share(part: int, total: int, threshold: int)
    requires
        total > 0,
    ensures
        (part / total >= threshold) <==> (part >= threshold * total),
{
    lemma_fundamental_div_mod(part, total);
    lemma_mod_bound(part, total);
    let q = part / total;
    let r = part % total;
    assert((q >= threshold) <==> (part >= threshold * total)) by (nonlinear_arith)
        requires
            part == total * q + r,
            0 <= r < total,
    ;
}

/// Every tally is non-negative.
pub open spec fn tallies_nonnegative(tallies: Seq<i128>) -> bool {
    forall|i: int| 0 <= i < tallies.len() ==> tallies[i] >= 0
}

/// With non-negative tallies the total is non-negative.
pub proof fn lemma_total_nonnegative(tallies: Seq<i128>)
    requires
        tallies_nonnegative(tallies),
    ensures
        tally_total(tallies) >= 0,
    decreases tallies.len(),
{
    if tallies.len() > 0 {
        let p = tallies.drop_last();
        assert forall|i: int| 0 <= i < p.len() implies p[i] >= 0 by {
            assert(p[i] == tallies[i]);
        }
        lemma_total_nonnegative(p);
    }
}

/// With non-negative tallies, one tally, and two different tallies
/// together, are at most the total.
pub proof fn lemma_tallies_within_total(tallies: Seq<i128>, i: int, j: int)
    requires
        tallies_nonnegative(tallies),
        0 <= i < tallies.len(),
        0 <= j < tallies.len(),
    ensures
        tallies[i] <= tally_total(tallies),
        i != j ==> tallies[i] + tallies[j] <= tally_total(tallies),
    decreases tallies.len(),
{
    let p = tallies.drop_last();
    let n = tallies.len() - 1;
    assert forall|x: int| 0 <= x < p.len() implies p[x] >= 0 by {
        assert(p[x] == tallies[x]);
    }
    lemma_total_nonnegative(p);
    if i < n && j < n {
        lemma_tallies_within_total(p, i, j);
        assert(p[i] == tallies[i] && p[j] == tallies[j]);
    } else if i < n {
        lemma_tallies_within_total(p, i, i);
        assert(p[i] == tallies[i]);
    } else if j < n {
        lemma_tallies_within_total(p, j, j);
        assert(p[j] == tallies[j]);
    }
}

// ---------------------------------------------------------------------------
// Vote counting
// ---------------------------------------------------------------------------

/// A vote over at most 32 outcomes succeeds exactly when the total is
/// positive and some outcome holds at least 60 % of it; the winner then
/// holds at least 60 %, no outcome has more votes, and every earlier
/// outcome has fewer. Any other vote over at most 32 outcomes deadlocks.
pub proof fn lemma_vote_succeeds_exactly_on_supermajority(tallies: Seq<i128>)
    requires
        tallies.len() <= 32,
    ensures
        (voting_outcome(tallies) is Ok) <==> (tally_total(tallies) > 0 && exists|k: int|
            0 <= k < tallies.len() && #[trigger] tallies[k] * 10_000 >= 6_000 * tally_total(tallies)),
        voting_outcome(tallies) matches Ok(w) ==> {
            &&& 0 <= w < tallies.len()
            &&& tallies[w as int] * 10_000 >= 6_000 * tally_total(tallies)
            &&& forall|j: int| 0 <= j < tallies.len() ==> tallies[j] <= tallies[w as int]
            &&& forall|j: int| 0 <= j < w ==> tallies[j] < tallies[w as int]
        },
        voting_outcome(tallies) is Err ==> voting_outcome(tallies) == Err::<u32, ErrorCode>(
            ErrorCode::NoMajorityReached,
        ),
{
    lemma_leading_outcome(tallies);
    let total = tally_total(tallies);
    let top = tally_max(tallies);
    if total > 0 {
        lemma_rounded_share(top * 10_000, total, 6_000);
        if exists|k: int| 0 <= k < tallies.len() && #[trigger] tallies[k] * 10_000 >= 6_000 * total {
            let k = choose|k: int| 0 <= k < tallies.len() && #[trigger] tallies[k] * 10_000 >= 6_000 * total;
            assert(tallies[k] <= top);
        }
        if top * 10_000 >= 6_000 * total {
            let l = leading_outcome(tallies);
            assert(top > 0);
            assert(tallies[l] * 10_000 >= 6_000 * total);
        }
    }
}

/// With non-negative tallies over at most 32 outcomes, an outcome holding
/// at least 60 % of a positive total wins the vote, whichever outcome it is
/// and however many outcomes there are.
pub proof fn lemma_supermajority_outcome_wins(tallies: Seq<i128>, k: int)
    requires
        tallies.len() <= 32,
        tallies_nonnegative(tallies),
        0 <= k < tallies.len(),
        tally_total(tallies) > 0,
        tallies[k] * 10_000 >= 6_000 * tally_total(tallies),
    ensures
        voting_outcome(tallies) == Ok::<u32, ErrorCode>(k as u32),
{
    lemma_vote_succeeds_exactly_on_supermajority(tallies);
    let w = voting_outcome(tallies)->Ok_0 as int;
    if w != k {
        lemma_tallies_within_total(tallies, w, k);
    }
}

/// Once its voting period is over, a disputed market is resolved by the
/// vote alone: a successful finalization records an outcome that holds at
/// least 60 % of the votes and leads the count, whatever outcome had been
/// proposed before, and leaves the market's other records as they were.
/// With non-negative tallies, an outcome holding 60 % is the one recorded.
pub proof fn lemma_vote_decides_disputed_market(m: Market, now: u64, tallies: Seq<i128>, k: int)
    requires
        m.status == MarketStatus::Disputed,
        m.dispute_timestamp matches Some(d) && now >= d + VOTING_PERIOD_SECONDS,
    ensures
        finalization(Some(m), now, tallies) matches Ok(r) ==> {
            &&& r.winning_outcome matches Some(w) && {
                &&& 0 <= w < tallies.len()
                &&& tally_total(tallies) > 0
                &&& tallies[w as int] * 10_000 >= 6_000 * tally_total(tallies)
                &&& forall|j: int| 0 <= j < tallies.len() ==> tallies[j] <= tallies[w as int]
            }
            &&& r.status == MarketStatus::Resolved
            &&& r.resolved_at == Some(now)
            &&& r.id == m.id && r.option_count == m.option_count
            &&& r.resolution_deadline == m.resolution_deadline
            &&& r.pending_resolution_timestamp == m.pending_resolution_timestamp
            &&& r.dispute_timestamp == m.dispute_timestamp
        },
        (tallies.len() <= 32 && tallies_nonnegative(tallies) && 0 <= k < tallies.len() && tally_total(tallies) > 0
            && tallies[k] * 10_000 >= 6_000 * tally_total(tallies)) ==> (finalization(Some(m), now, tallies)
            matches Ok(r) && r.winning_outcome == Some(k as u32)),
{
    if tallies.len() <= 32 {
        lemma_vote_succeeds_exactly_on_supermajority(tallies);
        if tallies_nonnegative(tallies) && 0 <= k < tallies.len() && tally_total(tallies) > 0
            && tallies[k] * 10_000 >= 6_000 * tally_total(tallies) {
            lemma_supermajority_outcome_wins(tallies, k);
        }
    }
}

/// Finalizing an undisputed proposal keeps the proposed outcome and the
/// market's other records.
pub proof fn lemma_finalization_keeps_proposal(m: Market, now: u64, tallies: Seq<i128>)
    requires
        m.status == MarketStatus::PendingResolution,
        m.winning_outcome is Some,
    ensures
        finalization(Some(m), now, tallies) matches Ok(r) ==> {
            &&& r.winning_outcome == m.winning_outcome
            &&& r.status == MarketStatus::Resolved
            &&& r.resolved_at == Some(now)
            &&& r.id == m.id && r.option_count == m.option_count
            &&& r.pending_resolution_timestamp == m.pending_resolution_timestamp
            &&& r.dispute_timestamp == m.dispute_timestamp
        },
{
}

/// The administrator resolves only a dispute whose vote has deadlocked:
/// after the voting period, over at most 32 outcomes, with no outcome
/// holding 60 % of a positive total; the recorded outcome is the one chosen.
pub proof fn lemma_admin_fallback_only_on_deadlock(
    admin_check: Result<(), ErrorCode>,
    market: Option<Market>,
    now: u64,
    tallies: Seq<i128>,
    winning_outcome: u32,
)
    ensures
        admin_fallback(admin_check, market, now, tallies, winning_outcome) matches Ok(r) ==> {
            &&& admin_check is Ok
            &&& market matches Some(m) && {
                &&& m.status == MarketStatus::Disputed
                &&& m.dispute_timestamp matches Some(d) && now >= d + VOTING_PERIOD_SECONDS
                &&& winning_outcome < m.option_count
                &&& r.id == m.id
            }
            &&& tallies.len() <= 32
            &&& (tally_total(tallies) <= 0 || forall|k: int|
                0 <= k < tallies.len() ==> #[trigger] tallies[k] * 10_000 < 6_000 * tally_total(tallies))
            &&& r.status == MarketStatus::Resolved
            &&& r.winning_outcome == Some(winning_outcome)
            &&& r.resolved_at == Some(now)
        },
{
    if tallies.len() <= 32 {
        lemma_vote_succeeds_exactly_on_supermajority(tallies);
    }
}

// ---------------------------------------------------------------------------
// Oracle proposals
// ---------------------------------------------------------------------------

/// Only an active market past its resolution deadline receives an oracle
/// proposal; any other market is refused as not active (or not ready). The
/// proposal records the oracle's outcome and the time, and nothing else changes.
pub proof fn lemma_only_active_markets_take_proposals(market: Option<Market>, now: u64, oracle_outcome: Option<u32>)
    ensures
        oracle_resolution(market, now, oracle_outcome) matches Ok(r) ==> {
            &&& market matches Some(m) && {
                &&& m.status == MarketStatus::Active
                &&& now >= m.resolution_deadline
                &&& r.id == m.id && r.option_count == m.option_count
                &&& r.resolution_deadline == m.resolution_deadline
                &&& r.dispute_timestamp == m.dispute_timestamp
                &&& r.resolved_at == m.resolved_at
            }
            &&& oracle_outcome is Some
            &&& r.status == MarketStatus::PendingResolution
            &&& r.winning_outcome == oracle_outcome
            &&& r.pending_resolution_timestamp == Some(now)
        },
        (market matches Some(m) && m.status != MarketStatus::Active) ==> oracle_resolution(market, now, oracle_outcome)
            == Err::<Market, ErrorCode>(ErrorCode::MarketNotActive),
{
}

// ---------------------------------------------------------------------------
// Price reports
// ---------------------------------------------------------------------------

/// The verdict on a price report, in plain arithmetic: a negative timestamp
/// is invalid; otherwise a report is stale exactly when it is older than the
/// configured limit; otherwise its confidence is too low exactly when
/// `conf` exceeds `bps` basis points of the price's magnitude.
pub proof fn lemma_price_verdict_exact(now: u64, price: PythPrice, max_staleness: u64, max_bps: u64)
    ensures
        (price_verdict(now, price, max_staleness, max_bps) == Err::<(), ErrorCode>(ErrorCode::InvalidTimestamp))
            <==> price.publish_time < 0,
        (price_verdict(now, price, max_staleness, max_bps) == Err::<(), ErrorCode>(ErrorCode::StalePrice))
            <==> (price.publish_time >= 0 && now - price.publish_time > max_staleness),
        (price_verdict(now, price, max_staleness, max_bps) == Err::<(), ErrorCode>(ErrorCode::ConfidenceTooLow))
            <==> (price.publish_time >= 0 && now - price.publish_time <= max_staleness && price.conf * 10_000
            > price_magnitude(price.price) * max_bps),
        (price_verdict(now, price, max_staleness, max_bps) is Ok) <==> (price.publish_time >= 0 && now
            - price.publish_time <= max_staleness && price.conf * 10_000 <= price_magnitude(price.price) * max_bps),
{
    let a = price_magnitude(price.price);
    assert(a * max_bps >= 0) by (nonlinear_arith)
        requires
            a >= 0,
            max_bps >= 0,
    ;
    let x = a * max_bps;
    lemma_rounded_share(x, 10_000, price.conf as int);
}

/// The magnitude of a price is its absolute value, saturated at `i64::MAX`.
pub proof fn lemma_price_magnitude(price: i64)
    ensures
        price >= 0 ==> price_magnitude(price) == price,
        (price < 0 && price > i64::MIN) ==> price_magnitude(price) == -price,
        price == i64::MIN ==> price_magnitude(price) == i64::MAX,
        0 <= price_magnitude(price) <= i64::MAX,
{
}

/// A price resolves to outcome 0 exactly when it is positive, and to
/// outcome 1 exactly when it is not.
pub proof fn lemma_price_outcome(price: i64)
    ensures
        (price_outcome(price) == 0) <==> price > 0,
        (price_outcome(price) == 1) <==> price <= 0,
{
}

} // verus!
