use predict_iq::errors::ErrorCode;
use predict_iq::resolution::{
    admin_fallback_resolution, attempt_oracle_resolution, calculate_voting_outcome, finalize_resolution,
    DISPUTE_WINDOW_SECONDS, VOTING_PERIOD_SECONDS,
};
use predict_iq::types::{Market, MarketStatus};

const DEADLINE: u64 = 1_700_000_000;

fn active_market() -> Market {
    Market {
        id: 7,
        status: MarketStatus::Active,
        resolution_deadline: DEADLINE,
        winning_outcome: None,
        pending_resolution_timestamp: None,
        dispute_timestamp: None,
        resolved_at: None,
        option_count: 3,
    }
}

fn disputed_market(disputed_at: u64) -> Market {
    Market {
        status: MarketStatus::Disputed,
        winning_outcome: Some(0),
        pending_resolution_timestamp: Some(DEADLINE),
        dispute_timestamp: Some(disputed_at),
        ..active_market()
    }
}

#[test]
fn voting_supermajority_wins() {
    assert_eq!(calculate_voting_outcome(&vec![30, 70, 0]), Ok(1));
    assert_eq!(calculate_voting_outcome(&vec![60, 40]), Ok(0));
}

#[test]
fn voting_below_threshold_is_deadlock() {
    assert_eq!(calculate_voting_outcome(&vec![59, 41]), Err(ErrorCode::NoMajorityReached));
    assert_eq!(calculate_voting_outcome(&vec![50, 50]), Err(ErrorCode::NoMajorityReached));
}

#[test]
fn voting_without_votes_is_deadlock() {
    assert_eq!(calculate_voting_outcome(&vec![0, 0, 0]), Err(ErrorCode::NoMajorityReached));
    assert_eq!(calculate_voting_outcome(&vec![]), Err(ErrorCode::NoMajorityReached));
}

#[test]
fn voting_rejects_too_many_outcomes() {
    assert_eq!(calculate_voting_outcome(&vec![1; 33]), Err(ErrorCode::TooManyOutcomes));
    let mut tallies = vec![0; 32];
    tallies[31] = 5;
    assert_eq!(calculate_voting_outcome(&tallies), Ok(31));
}

#[test]
fn voting_threshold_rounds_down() {
    // 5999.4 bps rounds down to 5999: no majority.
    assert_eq!(calculate_voting_outcome(&vec![29997, 20003]), Err(ErrorCode::NoMajorityReached));
    // Exactly 6000 bps is enough.
    assert_eq!(calculate_voting_outcome(&vec![3, 2]), Ok(0));
}

#[test]
fn voting_negative_total_is_deadlock() {
    assert_eq!(calculate_voting_outcome(&vec![10, -100]), Err(ErrorCode::NoMajorityReached));
}

#[test]
fn oracle_resolution_proposes_outcome() {
    let m = attempt_oracle_resolution(Some(active_market()), DEADLINE + 5, Some(2)).unwrap();
    assert_eq!(m.status, MarketStatus::PendingResolution);
    assert_eq!(m.winning_outcome, Some(2));
    assert_eq!(m.pending_resolution_timestamp, Some(DEADLINE + 5));
    assert_eq!(m.id, 7);
}

#[test]
fn oracle_resolution_errors() {
    assert_eq!(attempt_oracle_resolution(None, DEADLINE, Some(0)), Err(ErrorCode::MarketNotFound));
    assert_eq!(
        attempt_oracle_resolution(Some(active_market()), DEADLINE - 1, Some(0)),
        Err(ErrorCode::ResolutionNotReady)
    );
    assert_eq!(attempt_oracle_resolution(Some(active_market()), DEADLINE, None), Err(ErrorCode::OracleFailure));
    let resolved = Market { status: MarketStatus::Resolved, ..active_market() };
    assert_eq!(attempt_oracle_resolution(Some(resolved), DEADLINE, Some(0)), Err(ErrorCode::MarketNotActive));
}

#[test]
fn finalize_after_dispute_window() {
    let pending = attempt_oracle_resolution(Some(active_market()), DEADLINE, Some(1)).unwrap();
    assert_eq!(
        finalize_resolution(Some(pending), DEADLINE + DISPUTE_WINDOW_SECONDS - 1, &vec![]),
        Err(ErrorCode::DisputeWindowStillOpen)
    );
    let done = finalize_resolution(Some(pending), DEADLINE + DISPUTE_WINDOW_SECONDS, &vec![]).unwrap();
    assert_eq!(done.status, MarketStatus::Resolved);
    assert_eq!(done.winning_outcome, Some(1));
    assert_eq!(done.resolved_at, Some(DEADLINE + DISPUTE_WINDOW_SECONDS));
    assert_eq!(finalize_resolution(Some(done), DEADLINE * 2, &vec![]), Err(ErrorCode::CannotChangeOutcome));
}

#[test]
fn finalize_disputed_market_by_vote() {
    let t = DEADLINE + 100;
    let m = disputed_market(t);
    let tallies = vec![10, 20, 70];
    assert_eq!(finalize_resolution(Some(m), t + VOTING_PERIOD_SECONDS - 1, &tallies), Err(ErrorCode::TimelockActive));
    let done = finalize_resolution(Some(m), t + VOTING_PERIOD_SECONDS, &tallies).unwrap();
    assert_eq!(done.status, MarketStatus::Resolved);
    assert_eq!(done.winning_outcome, Some(2));
    assert_eq!(
        finalize_resolution(Some(m), t + VOTING_PERIOD_SECONDS, &vec![40, 30, 30]),
        Err(ErrorCode::NoMajorityReached)
    );
}

#[test]
fn finalize_other_states() {
    assert_eq!(finalize_resolution(None, 0, &vec![]), Err(ErrorCode::MarketNotFound));
    assert_eq!(finalize_resolution(Some(active_market()), DEADLINE, &vec![]), Err(ErrorCode::ResolutionNotReady));
    let cancelled = Market { status: MarketStatus::Cancelled, ..active_market() };
    assert_eq!(finalize_resolution(Some(cancelled), DEADLINE, &vec![]), Err(ErrorCode::ResolutionNotReady));
    let pending_without_time = Market { status: MarketStatus::PendingResolution, ..active_market() };
    assert_eq!(
        finalize_resolution(Some(pending_without_time), DEADLINE, &vec![]),
        Err(ErrorCode::ResolutionNotReady)
    );
    let disputed_without_time = Market { dispute_timestamp: None, ..disputed_market(0) };
    assert_eq!(
        finalize_resolution(Some(disputed_without_time), DEADLINE, &vec![]),
        Err(ErrorCode::MarketNotDisputed)
    );
}

#[test]
fn admin_fallback_on_deadlock() {
    let t = DEADLINE + 100;
    let m = disputed_market(t);
    let deadlock = vec![40, 30, 30];
    let now = t + VOTING_PERIOD_SECONDS;
    let done = admin_fallback_resolution(Ok(()), Some(m), now, &deadlock, 1).unwrap();
    assert_eq!(done.status, MarketStatus::Resolved);
    assert_eq!(done.winning_outcome, Some(1));
    assert_eq!(done.resolved_at, Some(now));
    assert_eq!(admin_fallback_resolution(Ok(()), Some(m), now, &deadlock, 3), Err(ErrorCode::InvalidOutcome));
}

#[test]
fn admin_fallback_refusals() {
    let t = DEADLINE + 100;
    let m = disputed_market(t);
    let now = t + VOTING_PERIOD_SECONDS;
    let deadlock = vec![40, 30, 30];
    assert_eq!(
        admin_fallback_resolution(Err(ErrorCode::NotAuthorized), Some(m), now, &deadlock, 1),
        Err(ErrorCode::NotAuthorized)
    );
    assert_eq!(admin_fallback_resolution(Ok(()), None, now, &deadlock, 1), Err(ErrorCode::MarketNotFound));
    assert_eq!(
        admin_fallback_resolution(Ok(()), Some(active_market()), now, &deadlock, 1),
        Err(ErrorCode::MarketNotDisputed)
    );
    assert_eq!(
        admin_fallback_resolution(Ok(()), Some(m), now - 1, &deadlock, 1),
        Err(ErrorCode::VotingPeriodNotElapsed)
    );
    // A clear majority cannot be overridden.
    assert_eq!(
        admin_fallback_resolution(Ok(()), Some(m), now, &vec![0, 0, 9], 1),
        Err(ErrorCode::CannotChangeOutcome)
    );
    let crowded = Market { option_count: 33, ..m };
    assert_eq!(
        admin_fallback_resolution(Ok(()), Some(crowded), now, &vec![0; 33], 1),
        Err(ErrorCode::TooManyOutcomes)
    );
}

#[test]
fn dispute_has_exactly_one_resolution() {
    let t = DEADLINE;
    let m = disputed_market(t);
    let now = t + VOTING_PERIOD_SECONDS;
    for tallies in [vec![1, 1, 8], vec![5, 5, 0], vec![0, 0, 0]] {
        let by_vote = finalize_resolution(Some(m), now, &tallies).is_ok();
        let by_admin = admin_fallback_resolution(Ok(()), Some(m), now, &tallies, 0).is_ok();
        assert!(by_vote != by_admin);
    }
}

#[test]
fn resolved_market_is_final() {
    let done = Market { status: MarketStatus::Resolved, winning_outcome: Some(1), dispute_timestamp: Some(0), ..active_market() };
    let later = DEADLINE + VOTING_PERIOD_SECONDS + DISPUTE_WINDOW_SECONDS;
    assert_eq!(attempt_oracle_resolution(Some(done), later, Some(0)), Err(ErrorCode::MarketNotActive));
    assert_eq!(finalize_resolution(Some(done), later, &vec![]), Err(ErrorCode::CannotChangeOutcome));
    assert_eq!(
        admin_fallback_resolution(Ok(()), Some(done), later, &vec![0, 0, 0], 2),
        Err(ErrorCode::MarketNotDisputed)
    );
}
