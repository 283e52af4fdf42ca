use vstd::prelude::*;

use crate::errors::ErrorCode;

verus! {

/// Denominator of basis-point ratios: 10 000 bps is 100 %.
pub const BPS_DENOMINATOR: u64 = 10_000;

/// A price report as published by a Pyth feed.
#[derive(Clone, Copy, Debug, PartialEq, Eq, Structural)]
pub struct PythPrice {
    pub price: i64,
    /// Confidence interval, in the same unit as `price`.
    pub conf: u64,
    pub expo: i32,
    /// Unix time of publication, as the feed reports it (signed).
    pub publish_time: i64,
}

/// How strictly an oracle's reports are checked.
#[derive(Debug)]
pub struct OracleConfig {
    pub feed_id: String,
    pub max_staleness_seconds: u64,
    /// Largest accepted confidence interval, in basis points of the price.
    pub max_confidence_bps: u64,
}

/// What a successful oracle resolution records and announces.
#[derive(Clone, Copy, Debug, PartialEq, Eq, Structural)]
pub struct OracleReport {
    pub outcome: u32,
    pub publish_time: u64,
    pub price: i64,
    pub conf: u64,
}

/// How old a report published at `result_time` is at `current_time`;
/// a report from the future has age zero.
pub open spec fn report_age(current_time: u64, result_time: u64) -> int {
    if current_time >= result_time {
        current_time - result_time
    } else {
        0
    }
}

/// Magnitude of a price, saturated at `i64::MAX` (so `i64::MIN` maps to `i64::MAX`).
pub open spec fn price_magnitude(price: i64) -> int {
    if price >= 0 {
        price as int
    } else if price == i64::MIN {
        i64::MAX as int
    } else {
        -price
    }
}

/// Largest confidence interval accepted for a price: the magnitude scaled by
/// `bps` basis points, rounded down.
pub open spec fn max_confidence(price: i64, bps: u64) -> int {
    (price_magnitude(price) * bps) / (BPS_DENOMINATOR as int)
}

/// The confidence bound can be computed in 64 bits.
pub open spec fn confidence_bound_fits(price: i64, bps: u64) -> bool {
    price_magnitude(price) * bps <= u64::MAX
}

/// Outcome index that a price stands for: 0 for a positive price, 1 otherwise.
pub open spec fn price_outcome(price: i64) -> u32 {
    if price > 0 {
        0
    } else {
        1
    }
}

/// Verdict on a price report at ledger time `now`.
pub open spec fn price_verdict(now: u64, price: PythPrice, max_staleness: u64, max_bps: u64) -> Result<(), ErrorCode> {
    if price.publish_time < 0 {
        Err(ErrorCode::InvalidTimestamp)
    } else if report_age(now, price.publish_time as u64) > max_staleness {
        Err(ErrorCode::StalePrice)
    } else if price.conf > max_confidence(price.price, max_bps) {
        Err(ErrorCode::ConfidenceTooLow)
    } else {
        Ok(())
    }
}

/// The confidence check of a report is reached only for reports that are
/// timely; there the bound must fit in 64 bits.
pub open spec fn price_checkable(now: u64, price: PythPrice, max_staleness: u64, max_bps: u64) -> bool {
    (price.publish_time >= 0 && report_age(now, price.publish_time as u64) <= max_staleness)
        ==> confidence_bound_fits(price.price, max_bps)
}

/// Converts an externally reported (signed) timestamp to ledger time.
pub fn cast_external_timestamp(timestamp: i64) -> (r: Result<u64, ErrorCode>)
    ensures
        r == (if timestamp < 0 {
            Err(ErrorCode::InvalidTimestamp)
        } else {
            Ok(timestamp as u64)
        }),
{
    if timestamp < 0 {
        Err(ErrorCode::InvalidTimestamp)
    } else {
        Ok(timestamp as u64)
    }
}

/// A report is stale when it is strictly older than `max_age_seconds`.
/// A report from the future is never stale.
pub fn is_stale(current_time: u64, result_time: u64, max_age_seconds: u64) -> (r: bool)
    ensures
        r == (report_age(current_time, result_time) > max_age_seconds),
        r == (current_time > result_time && current_time - result_time > max_age_seconds),
{
    current_time.saturating_sub(result_time) > max_age_seconds
}

/// Magnitude of a price as an unsigned number; `i64::MIN` saturates to `i64::MAX`.
pub fn abs_price_to_u64(price: i64) -> (r: u64)
    ensures
        r == price_magnitude(price),
        r <= i64::MAX,
{
    if price >= 0 {
        price as u64
    } else if price == i64::MIN {
        i64::MAX as u64
    } else {
        (-price) as u64
    }
}

/// Checks a price report at ledger time `now`: its timestamp must be
/// non-negative, it must not be stale, and its confidence interval must not
/// exceed `max_confidence_bps` of the price (rounded down).
pub fn validate_price(now: u64, price: &PythPrice, config: &OracleConfig) -> (r: Result<(), ErrorCode>)
    requires
        price_checkable(now, *price, config.max_staleness_seconds, config.max_confidence_bps),
    ensures
        r == price_verdict(now, *price, config.max_staleness_seconds, config.max_confidence_bps),
        (r == Err::<(), ErrorCode>(ErrorCode::InvalidTimestamp)) <==> price.publish_time < 0,
        (r == Err::<(), ErrorCode>(ErrorCode::StalePrice)) <==> (price.publish_time >= 0 && now - price.publish_time
            > config.max_staleness_seconds),
        (r is Ok) ==> (now - price.publish_time <= config.max_staleness_seconds && price.conf * 10_000
            <= price_magnitude(price.price) * config.max_confidence_bps),
{
    proof {
        crate::laws::lemma_price_verdict_exact(now, *price, config.max_staleness_seconds, config.max_confidence_bps);
    }
    let publish_time = match cast_external_timestamp(price.publish_time) {
        Ok(t) => t,
        Err(e) => return Err(e),
    };
    if is_stale(now, publish_time, config.max_staleness_seconds) {
        return Err(ErrorCode::StalePrice);
    }
    let price_abs = abs_price_to_u64(price.price);
    let max_conf = (price_abs * config.max_confidence_bps) / BPS_DENOMINATOR;
    if price.conf > max_conf {
        return Err(ErrorCode::ConfidenceTooLow);
    }
    Ok(())
}

/// Outcome that a validated price resolves to.
fn determine_outcome(price: &PythPrice) -> (r: u32)
    ensures
        r == price_outcome(price.price),
        (r == 0) <==> price.price > 0,
        (r == 1) <==> price.price <= 0,
{
    if price.price > 0 {
        0
    } else {
        1
    }
}

/// Turns the report that a feed returned (or the reason none came) into
/// what the oracle records: the report is validated at `now`, and its price
/// decides the outcome.
pub fn resolve_with_pyth(fetched: Result<PythPrice, ErrorCode>, now: u64, config: &OracleConfig) -> (r: Result<OracleReport, ErrorCode>)
    requires
        fetched matches Ok(p) ==> price_checkable(now, p, config.max_staleness_seconds, config.max_confidence_bps),
    ensures
        match fetched {
            Err(e) => r == Err::<OracleReport, ErrorCode>(e),
            Ok(p) => match price_verdict(now, p, config.max_staleness_seconds, config.max_confidence_bps) {
                Err(e) => r == Err::<OracleReport, ErrorCode>(e),
                Ok(_) => r == Ok::<OracleReport, ErrorCode>(OracleReport {
                    outcome: price_outcome(p.price),
                    publish_time: p.publish_time as u64,
                    price: p.price,
                    conf: p.conf,
                }),
            },
        },
        r matches Ok(rep) ==> (fetched matches Ok(p) && (rep.outcome == 0 <==> p.price > 0) && (rep.outcome == 1
            <==> p.price <= 0) && rep.price == p.price && rep.conf == p.conf && rep.publish_time == p.publish_time),
        match fetched {
            Err(e) => r == Err::<OracleReport, ErrorCode>(e),
            Ok(p) => (r is Ok) <==> (p.publish_time >= 0 && now - p.publish_time <= config.max_staleness_seconds
                && p.conf * 10_000 <= price_magnitude(p.price) * config.max_confidence_bps),
        },
{
    proof {
        if let Ok(p) = fetched {
            crate::laws::lemma_price_verdict_exact(now, p, config.max_staleness_seconds, config.max_confidence_bps);
        }
    }
    let price = match fetched {
        Ok(p) => p,
        Err(e) => return Err(e),
    };
    match validate_price(now, &price, config) {
        Ok(()) => {},
        Err(e) => return Err(e),
    }
    let outcome = determine_outcome(&price);
    Ok(OracleReport {
        outcome,
        publish_time: price.publish_time as u64,
        price: price.price,
        conf: price.conf,
    })
}

/// An oracle configuration is usable when it names a feed.
pub fn verify_oracle_health(config: &OracleConfig) -> (r: bool)
    ensures
        r == (config.feed_id@.len() > 0),
{
    !config.feed_id.as_str().is_empty()
}

/// A price report with the default exponent (-2) published at `timestamp`.
pub fn create_price(price: i64, conf: u64, timestamp: u64) -> (r: PythPrice)
    requires
        timestamp <= i64::MAX,
    ensures
        r.price == price,
        r.conf == conf,
        r.expo == -2,
        r.publish_time == timestamp,
{
    PythPrice { price, conf, expo: -2, publish_time: timestamp as i64 }
}

/// A report from the future is never stale.
pub proof fn lemma_future_report_is_fresh(current_time: u64, result_time: u64, max_age_seconds: u64)
    requires
        result_time >= current_time,
    ensures
        !(report_age(current_time, result_time) > max_age_seconds),
{
}

/// Staleness only grows with time: a report stale at some time stays stale later.
pub proof fn lemma_staleness_is_monotone(current_time: u64, later_time: u64, result_time: u64, max_age_seconds: u64)
    requires
        current_time <= later_time,
        report_age(current_time, result_time) > max_age_seconds,
    ensures
        report_age(later_time, result_time) > max_age_seconds,
{
}

/// An accepted report is timely and its confidence interval, scaled to
/// basis points, stays within the configured bound.
pub proof fn lemma_accepted_price_is_sound(now: u64, price: PythPrice, max_staleness: u64, max_bps: u64)
    requires
        price_verdict(now, price, max_staleness, max_bps) is Ok,
    ensures
        price.publish_time >= 0,
        now - price.publish_time <= max_staleness,
        price.conf * BPS_DENOMINATOR <= price_magnitude(price.price) * max_bps,
{
    let m = price_magnitude(price.price) * max_bps;
    assert(price.conf <= m / 10000);
    assert((m / 10000) * 10000 <= m) by (nonlinear_arith)
        requires m >= 0;
    assert(price.conf * 10000 <= (m / 10000) * 10000) by (nonlinear_arith)
        requires price.conf <= m / 10000;
}

} // verus!
