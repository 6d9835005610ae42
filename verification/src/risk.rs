//! Risk parameters of credit lines: the rate that a score maps to, and the rules under
//! which the admin may change a line's terms.

use vstd::prelude::*;

use crate::accrual::elapsed_secs;
use crate::rounding::magnitude;
use crate::types::{CreditLineData, RateChangeConfig, RiskError, RiskParametersUpdatedEvent};

verus! {

/// Maximum interest rate in basis points (100%).
pub const MAX_INTEREST_RATE_BPS: u32 = 10_000;

/// Maximum risk score (0-100 scale).
pub const MAX_RISK_SCORE: u32 = 100;

/// The rate in basis points that linear interpolation assigns to `score`, where score 0
/// has `min_rate_bps` and score 100 has `max_rate_bps`, rounded down.
pub open spec fn rate_for_score(score: int, min_rate_bps: int, max_rate_bps: int) -> int {
    min_rate_bps + (max_rate_bps - min_rate_bps) * score / (MAX_RISK_SCORE as int)
}

/// The terms that an update request asks for.
pub struct Terms {
    pub credit_limit: i128,
    pub interest_rate_bps: u32,
    pub risk_score: u32,
}

/// The change from `old_rate` to `new_rate` is no larger than the configured cap, if
/// there is one.
pub open spec fn within_rate_cap(
    limits: Option<RateChangeConfig>,
    old_rate: u32,
    new_rate: u32,
) -> bool {
    limits matches Some(cfg) ==> magnitude(new_rate - old_rate) <= cfg.max_rate_change_bps
}

/// The configured interval since `last_change` has passed at `now`. There is nothing to
/// wait for without a configuration, with interval zero, or before the first change.
pub open spec fn interval_passed(
    limits: Option<RateChangeConfig>,
    last_change: u64,
    now: u64,
) -> bool {
    limits matches Some(cfg) ==> {
        ||| cfg.rate_change_min_interval == 0
        ||| last_change == 0
        ||| elapsed_secs(last_change, now) >= cfg.rate_change_min_interval
    }
}

/// The first rule that a request to put `terms` in force on `line` breaks, if any.
pub open spec fn terms_refusal(
    line: CreditLineData,
    limits: Option<RateChangeConfig>,
    now: u64,
    terms: Terms,
) -> Option<RiskError> {
    let rate_changes = terms.interest_rate_bps != line.interest_rate_bps;
    if terms.credit_limit < 0 {
        Some(RiskError::NegativeCreditLimit)
    } else if terms.credit_limit < line.utilized_amount {
        Some(RiskError::LimitBelowUtilized)
    } else if terms.interest_rate_bps > MAX_INTEREST_RATE_BPS {
        Some(RiskError::RateAboveMaximum)
    } else if terms.risk_score > MAX_RISK_SCORE {
        Some(RiskError::ScoreAboveMaximum)
    } else if rate_changes && !within_rate_cap(
        limits,
        line.interest_rate_bps,
        terms.interest_rate_bps,
    ) {
        Some(RiskError::RateDeltaTooLarge)
    } else if rate_changes && !interval_passed(limits, line.last_rate_update_ts, now) {
        Some(RiskError::RateChangeTooSoon)
    } else {
        None
    }
}

/// Why an update request is refused, if it is: for want of authorization first, then for
/// want of a credit line, then for the terms it asks for.
pub open spec fn update_refusal(
    admin_authorized: bool,
    stored: Option<CreditLineData>,
    limits: Option<RateChangeConfig>,
    now: u64,
    terms: Terms,
) -> Option<RiskError> {
    if !admin_authorized {
        Some(RiskError::NotAdmin)
    } else {
        match stored {
            None => Some(RiskError::CreditLineNotFound),
            Some(line) => terms_refusal(line, limits, now, terms),
        }
    }
}

/// The record after `terms` have been put in force on `line` at `now`.
pub open spec fn with_terms(line: CreditLineData, now: u64, terms: Terms) -> CreditLineData {
    CreditLineData {
        credit_limit: terms.credit_limit,
        interest_rate_bps: terms.interest_rate_bps,
        risk_score: terms.risk_score,
        last_rate_update_ts: if terms.interest_rate_bps != line.interest_rate_bps {
            now
        } else {
            line.last_rate_update_ts
        },
        ..line
    }
}

/// The configuration in force after a request to set the guardrails.
pub open spec fn limits_after_request(
    admin_authorized: bool,
    limits: Option<RateChangeConfig>,
    cfg: RateChangeConfig,
) -> Option<RateChangeConfig> {
    if admin_authorized {
        Some(cfg)
    } else {
        limits
    }
}

/// Maps a risk score linearly onto the range from `min_rate_bps` (score 0) to
/// `max_rate_bps` (score 100), rounding down. Scores above 100 extrapolate.
pub fn compute_rate_from_score(score: u32, min_rate_bps: u32, max_rate_bps: u32) -> (rate: u32)
    requires
        min_rate_bps <= max_rate_bps,
        rate_for_score(score as int, min_rate_bps as int, max_rate_bps as int) <= u32::MAX,
    ensures
        rate == rate_for_score(score as int, min_rate_bps as int, max_rate_bps as int),
        (rate - min_rate_bps) * 100 <= (max_rate_bps - min_rate_bps) * score < (rate - min_rate_bps
            + 1) * 100,
{
    let spread: u32 = max_rate_bps - min_rate_bps;
    proof {
        let bound: int = u32::MAX as int;
        assert(spread * score <= bound * bound) by (nonlinear_arith)
            requires
                0 <= spread <= bound,
                0 <= score <= bound,
        ;
        assert(0 <= spread * score) by (nonlinear_arith)
            requires
                0 <= spread,
                0 <= score,
        ;
    }
    let weighted: u64 = spread as u64 * score as u64;
    (min_rate_bps as u64 + weighted / MAX_RISK_SCORE as u64) as u32
}

/// Puts new risk parameters in force on a stored credit line, and returns the event that
/// announces them.
///
/// `stored` is the record kept for `borrower`, `limits` the guardrails in force and `now`
/// the ledger time; `admin_authorized` tells whether the request carries the admin's
/// authorization. A refused request leaves the record as it was.
pub fn update_risk_parameters<A>(
    admin_authorized: bool,
    stored: &mut Option<CreditLineData>,
    limits: &Option<RateChangeConfig>,
    now: u64,
    borrower: A,
    credit_limit: i128,
    interest_rate_bps: u32,
    risk_score: u32,
) -> (result: Result<RiskParametersUpdatedEvent<A>, RiskError>)
    ensures
        ({
            let terms = Terms { credit_limit, interest_rate_bps, risk_score };
            match update_refusal(admin_authorized, *old(stored), *limits, now, terms) {
                Some(error) => {
                    &&& result == Err::<RiskParametersUpdatedEvent<A>, _>(error)
                    &&& *final(stored) == *old(stored)
                },
                None => {
                    &&& result == Ok::<_, RiskError>(
                        RiskParametersUpdatedEvent {
                            borrower,
                            credit_limit,
                            interest_rate_bps,
                            risk_score,
                        },
                    )
                    &&& *final(stored) == Some(with_terms(old(stored)->0, now, terms))
                },
            }
        }),
        result is Ok <==> {
            &&& admin_authorized
            &&& *old(stored) matches Some(line)
            &&& 0 <= credit_limit
            &&& line.utilized_amount <= credit_limit
            &&& interest_rate_bps <= 10_000
            &&& risk_score <= 100
            &&& interest_rate_bps != line.interest_rate_bps ==> (*limits matches Some(cfg) ==> {
                &&& interest_rate_bps <= line.interest_rate_bps + cfg.max_rate_change_bps
                &&& line.interest_rate_bps <= interest_rate_bps + cfg.max_rate_change_bps
                &&& cfg.rate_change_min_interval == 0 || line.last_rate_update_ts == 0
                    || line.last_rate_update_ts + cfg.rate_change_min_interval <= now
            })
        },
        result matches Ok(event) ==> {
            let before = old(stored)->0;
            &&& event.borrower == borrower
            &&& event.credit_limit == credit_limit
            &&& event.interest_rate_bps == interest_rate_bps
            &&& event.risk_score == risk_score
            &&& *final(stored) matches Some(after)
            &&& after.credit_limit == credit_limit
            &&& after.interest_rate_bps == interest_rate_bps
            &&& after.risk_score == risk_score
            &&& after.utilized_amount == before.utilized_amount
            &&& after.accrued_interest == before.accrued_interest
            &&& after.last_accrual_ts == before.last_accrual_ts
            &&& interest_rate_bps != before.interest_rate_bps ==> after.last_rate_update_ts == now
            &&& interest_rate_bps == before.interest_rate_bps ==> after.last_rate_update_ts
                == before.last_rate_update_ts
        },
        result is Err ==> *final(stored) == *old(stored),
{
    if !admin_authorized {
        return Err(RiskError::NotAdmin);
    }
    let mut line: CreditLineData = match *stored {
        None => return Err(RiskError::CreditLineNotFound),
        Some(line) => line,
    };
    if credit_limit < 0 {
        return Err(RiskError::NegativeCreditLimit);
    }
    if credit_limit < line.utilized_amount {
        return Err(RiskError::LimitBelowUtilized);
    }
    if interest_rate_bps > MAX_INTEREST_RATE_BPS {
        return Err(RiskError::RateAboveMaximum);
    }
    if risk_score > MAX_RISK_SCORE {
        return Err(RiskError::ScoreAboveMaximum);
    }
    if interest_rate_bps != line.interest_rate_bps {
        if let Some(cfg) = limits {
            let delta: u32 = if interest_rate_bps > line.interest_rate_bps {
                interest_rate_bps - line.interest_rate_bps
            } else {
                line.interest_rate_bps - interest_rate_bps
            };
            if delta > cfg.max_rate_change_bps {
                return Err(RiskError::RateDeltaTooLarge);
            }
            if cfg.rate_change_min_interval > 0 && line.last_rate_update_ts != 0 {
                let elapsed: u64 = now.saturating_sub(line.last_rate_update_ts);
                if elapsed < cfg.rate_change_min_interval {
                    return Err(RiskError::RateChangeTooSoon);
                }
            }
        }
        line.last_rate_update_ts = now;
    }
    line.credit_limit = credit_limit;
    line.interest_rate_bps = interest_rate_bps;
    line.risk_score = risk_score;
    *stored = Some(line);
    Ok(RiskParametersUpdatedEvent { borrower, credit_limit, interest_rate_bps, risk_score })
}

/// Replaces the guardrails that constrain later rate changes. A request without the
/// admin's authorization is refused and leaves them as they were.
pub fn set_rate_change_limits(
    admin_authorized: bool,
    limits: &mut Option<RateChangeConfig>,
    max_rate_change_bps: u32,
    rate_change_min_interval: u64,
) -> (result: Result<(), RiskError>)
    ensures
        result is Ok <==> admin_authorized,
        result is Err ==> result == Err::<(), _>(RiskError::NotAdmin),
        *final(limits) == limits_after_request(
            admin_authorized,
            *old(limits),
            (RateChangeConfig { max_rate_change_bps, rate_change_min_interval }),
        ),
        result is Ok ==> {
            &&& *final(limits) matches Some(cfg)
            &&& cfg.max_rate_change_bps == max_rate_change_bps
            &&& cfg.rate_change_min_interval == rate_change_min_interval
        },
        result is Err ==> *final(limits) == *old(limits),
{
    if !admin_authorized {
        return Err(RiskError::NotAdmin);
    }
    *limits = Some(RateChangeConfig { max_rate_change_bps, rate_change_min_interval });
    Ok(())
}

/// The guardrails in force; `None` where none have been configured, and rate changes are
/// unconstrained.
pub fn get_rate_change_limits(limits: &Option<RateChangeConfig>) -> (current: Option<
    RateChangeConfig,
>)
    ensures
        current == *limits,
{
    *limits
}

/// The rate lies on the line through score 0 and score 100, rounded down: a hundred times
/// its distance from the lowest rate is the spread times the score, up to less than a
/// hundred.
pub proof fn law_rate_lies_on_line(score: int, min_rate_bps: int, max_rate_bps: int)
    ensures
        ({
            let above_min = rate_for_score(score, min_rate_bps, max_rate_bps) - min_rate_bps;
            above_min * 100 <= (max_rate_bps - min_rate_bps) * score < (above_min + 1) * 100
        }),
{
}

/// A score that is a hundred higher has a rate that is the whole spread higher.
pub proof fn law_rate_slope(score: int, min_rate_bps: int, max_rate_bps: int)
    ensures
        rate_for_score(score + 100, min_rate_bps, max_rate_bps) == rate_for_score(
            score,
            min_rate_bps,
            max_rate_bps,
        ) + (max_rate_bps - min_rate_bps),
{
    let spread = max_rate_bps - min_rate_bps;
    assert(spread * (score + 100) == spread * score + spread * 100) by (nonlinear_arith);
}

/// Score 0 has the lowest rate and score 100 the highest.
pub proof fn law_rate_endpoints(min_rate_bps: int, max_rate_bps: int)
    ensures
        rate_for_score(0, min_rate_bps, max_rate_bps) == min_rate_bps,
        rate_for_score(100, min_rate_bps, max_rate_bps) == max_rate_bps,
{
}

/// A higher score never has a lower rate.
pub proof fn law_rate_monotone_in_score(
    score1: int,
    score2: int,
    min_rate_bps: int,
    max_rate_bps: int,
)
    requires
        score1 <= score2,
        min_rate_bps <= max_rate_bps,
    ensures
        rate_for_score(score1, min_rate_bps, max_rate_bps) <= rate_for_score(
            score2,
            min_rate_bps,
            max_rate_bps,
        ),
{
    let spread = max_rate_bps - min_rate_bps;
    assert(spread * score1 <= spread * score2) by (nonlinear_arith)
        requires
            0 <= spread,
            score1 <= score2,
    ;
}

/// Scores from 0 to 100 have rates within the given range; higher scores extrapolate to
/// rates at or above its upper end.
pub proof fn law_rate_range(score: int, min_rate_bps: int, max_rate_bps: int)
    requires
        0 <= score,
        min_rate_bps <= max_rate_bps,
    ensures
        min_rate_bps <= rate_for_score(score, min_rate_bps, max_rate_bps),
        score <= 100 ==> rate_for_score(score, min_rate_bps, max_rate_bps)
            <= max_rate_bps,
        score >= 100 ==> rate_for_score(score, min_rate_bps, max_rate_bps)
            >= max_rate_bps,
{
    let top = 100;
    law_rate_endpoints(min_rate_bps, max_rate_bps);
    law_rate_monotone_in_score(0, score, min_rate_bps, max_rate_bps);
    if score <= top {
        law_rate_monotone_in_score(score, top, min_rate_bps, max_rate_bps);
    } else {
        law_rate_monotone_in_score(top, score, min_rate_bps, max_rate_bps);
    }
}

/// A request is granted exactly when the admin authorized it, the line exists, the limit
/// is not negative and covers the debt, rate and score are in range, and a change of the
/// rate respects the guardrails.
pub proof fn law_update_granted(
    admin_authorized: bool,
    stored: Option<CreditLineData>,
    limits: Option<RateChangeConfig>,
    now: u64,
    terms: Terms,
)
    ensures
        update_refusal(admin_authorized, stored, limits, now, terms) is None <==> {
            &&& admin_authorized
            &&& stored matches Some(line)
            &&& 0 <= terms.credit_limit
            &&& line.utilized_amount <= terms.credit_limit
            &&& terms.interest_rate_bps <= 10_000
            &&& terms.risk_score <= 100
            &&& terms.interest_rate_bps != line.interest_rate_bps ==> (limits matches Some(cfg) ==> {
                &&& terms.interest_rate_bps <= line.interest_rate_bps + cfg.max_rate_change_bps
                &&& line.interest_rate_bps <= terms.interest_rate_bps + cfg.max_rate_change_bps
                &&& cfg.rate_change_min_interval == 0 || line.last_rate_update_ts == 0
                    || line.last_rate_update_ts + cfg.rate_change_min_interval <= now
            })
        },
{
}

/// A change of the rate that moves it by no more than the cap, and comes no sooner than the
/// interval after the last recorded change, is granted wherever the request is authorized
/// and otherwise in order.
pub proof fn law_rate_change_within_limits_is_granted(
    line: CreditLineData,
    cfg: RateChangeConfig,
    now: u64,
    terms: Terms,
)
    requires
        0 <= terms.credit_limit,
        line.utilized_amount <= terms.credit_limit,
        terms.interest_rate_bps <= 10_000,
        terms.risk_score <= 100,
        terms.interest_rate_bps <= line.interest_rate_bps + cfg.max_rate_change_bps,
        line.interest_rate_bps <= terms.interest_rate_bps + cfg.max_rate_change_bps,
        cfg.rate_change_min_interval == 0 || line.last_rate_update_ts == 0
            || line.last_rate_update_ts + cfg.rate_change_min_interval <= now,
    ensures
        update_refusal(true, Some(line), Some(cfg), now, terms) is None,
{
    law_update_granted(true, Some(line), Some(cfg), now, terms);
}

/// Widening the guardrails, or removing them, and letting more time pass, never turns a
/// granted request into a refused one.
pub proof fn law_looser_limits_grant_no_less(
    line: CreditLineData,
    cfg: RateChangeConfig,
    looser: Option<RateChangeConfig>,
    now: u64,
    later: u64,
    terms: Terms,
)
    requires
        update_refusal(true, Some(line), Some(cfg), now, terms) is None,
        looser matches Some(wide) ==> {
            &&& cfg.max_rate_change_bps <= wide.max_rate_change_bps
            &&& wide.rate_change_min_interval <= cfg.rate_change_min_interval
        },
        now <= later,
    ensures
        update_refusal(true, Some(line), looser, later, terms) is None,
{
}

/// Which refusal a request gets. The reasons are looked for in a fixed order, so that each
/// is given exactly where it applies and none before it does.
pub proof fn law_refusal_reasons(
    admin_authorized: bool,
    stored: Option<CreditLineData>,
    limits: Option<RateChangeConfig>,
    now: u64,
    terms: Terms,
)
    ensures
        ({
            let refusal = update_refusal(admin_authorized, stored, limits, now, terms);
            let line = stored->0;
            let found = admin_authorized && stored is Some;
            let limit_ok = found && 0 <= terms.credit_limit && line.utilized_amount
                <= terms.credit_limit;
            let rate_ok = limit_ok && terms.interest_rate_bps <= 10_000;
            let rate_moves = rate_ok && terms.risk_score <= 100 && limits is Some
                && terms.interest_rate_bps != line.interest_rate_bps;
            let cap = limits->0.max_rate_change_bps;
            let interval = limits->0.rate_change_min_interval;
            let too_far = terms.interest_rate_bps > line.interest_rate_bps + cap
                || line.interest_rate_bps > terms.interest_rate_bps + cap;
            let too_soon = interval > 0 && line.last_rate_update_ts > 0 && now
                < line.last_rate_update_ts + interval;
            &&& refusal == Some(RiskError::NotAdmin) <==> !admin_authorized
            &&& refusal == Some(RiskError::CreditLineNotFound) <==> admin_authorized
                && stored is None
            &&& refusal == Some(RiskError::NegativeCreditLimit) <==> found && terms.credit_limit < 0
            &&& refusal == Some(RiskError::LimitBelowUtilized) <==> found && 0
                <= terms.credit_limit < line.utilized_amount
            &&& refusal == Some(RiskError::RateAboveMaximum) <==> limit_ok
                && terms.interest_rate_bps > 10_000
            &&& refusal == Some(RiskError::ScoreAboveMaximum) <==> rate_ok && terms.risk_score > 100
            &&& refusal == Some(RiskError::RateDeltaTooLarge) <==> rate_moves && too_far
            &&& refusal == Some(RiskError::RateChangeTooSoon) <==> rate_moves && !too_far
                && too_soon
        }),
{
}

/// On an existing line, an authorized request stands or falls with its terms.
pub proof fn law_authorized_request_is_judged_by_terms(
    line: CreditLineData,
    limits: Option<RateChangeConfig>,
    now: u64,
    terms: Terms,
)
    ensures
        update_refusal(true, Some(line), limits, now, terms) == terms_refusal(
            line,
            limits,
            now,
            terms,
        ),
{
}

/// An update puts exactly the requested limit, rate and score in force, whether they are
/// higher or lower than before; of two updates the later one counts.
pub proof fn law_requested_terms_are_in_force(
    line: CreditLineData,
    now1: u64,
    terms1: Terms,
    now2: u64,
    terms2: Terms,
)
    ensures
        ({
            let once = with_terms(line, now1, terms1);
            let twice = with_terms(once, now2, terms2);
            &&& once.credit_limit == terms1.credit_limit
            &&& once.interest_rate_bps == terms1.interest_rate_bps
            &&& once.risk_score == terms1.risk_score
            &&& twice.credit_limit == terms2.credit_limit
            &&& twice.interest_rate_bps == terms2.interest_rate_bps
            &&& twice.risk_score == terms2.risk_score
        }),
{
}

/// A granted request leaves a record with the requested terms, which are valid whatever the
/// terms were before. It changes neither the debt nor the interest accrued on it, and moves the time of the
/// last rate change exactly when the rate changes.
pub proof fn law_update_outcome(
    line: CreditLineData,
    limits: Option<RateChangeConfig>,
    now: u64,
    terms: Terms,
)
    requires
        terms_refusal(line, limits, now, terms) is None,
    ensures
        with_terms(line, now, terms).terms_valid(),
        with_terms(line, now, terms).credit_limit == terms.credit_limit,
        with_terms(line, now, terms).interest_rate_bps == terms.interest_rate_bps,
        with_terms(line, now, terms).risk_score == terms.risk_score,
        with_terms(line, now, terms).utilized_amount == line.utilized_amount,
        with_terms(line, now, terms).accrued_interest == line.accrued_interest,
        with_terms(line, now, terms).last_accrual_ts == line.last_accrual_ts,
        terms.interest_rate_bps == line.interest_rate_bps ==> with_terms(
            line,
            now,
            terms,
        ).last_rate_update_ts == line.last_rate_update_ts,
        terms.interest_rate_bps != line.interest_rate_bps ==> with_terms(
            line,
            now,
            terms,
        ).last_rate_update_ts == now,
{
}

/// Guardrails never stand in the way of a request that keeps the rate.
pub proof fn law_unchanged_rate_ignores_limits(
    line: CreditLineData,
    limits1: Option<RateChangeConfig>,
    limits2: Option<RateChangeConfig>,
    now1: u64,
    now2: u64,
    terms: Terms,
)
    requires
        terms.interest_rate_bps == line.interest_rate_bps,
    ensures
        terms_refusal(line, limits1, now1, terms) == terms_refusal(line, limits2, now2, terms),
        with_terms(line, now1, terms) == with_terms(line, now2, terms),
{
}

/// Without a configuration, or with the largest cap and a zero interval, no rate change is
/// refused for its size or its time.
pub proof fn law_disabled_limits(
    line: CreditLineData,
    limits: Option<RateChangeConfig>,
    now: u64,
    terms: Terms,
)
    requires
        limits matches Some(cfg) ==> {
            &&& cfg.max_rate_change_bps == u32::MAX
            &&& cfg.rate_change_min_interval == 0
        },
    ensures
        terms_refusal(line, limits, now, terms) != Some(RiskError::RateDeltaTooLarge),
        terms_refusal(line, limits, now, terms) != Some(RiskError::RateChangeTooSoon),
        terms_refusal(line, limits, now, terms) == terms_refusal(line, None, now, terms),
{
}

/// The largest cap disables the check of the size alone, and interval zero, or a line
/// without a recorded rate change, the check of the time alone.
pub proof fn law_disabled_checks(
    line: CreditLineData,
    cfg: RateChangeConfig,
    now: u64,
    terms: Terms,
)
    ensures
        cfg.max_rate_change_bps == u32::MAX ==> terms_refusal(line, Some(cfg), now, terms) != Some(
            RiskError::RateDeltaTooLarge,
        ),
        cfg.rate_change_min_interval == 0 || line.last_rate_update_ts == 0 ==> terms_refusal(
            line,
            Some(cfg),
            now,
            terms,
        ) != Some(RiskError::RateChangeTooSoon),
{
}

/// Of two consecutive rate changes, each stays within the cap that is configured when it
/// is made, and the second comes at least the interval configured by then after the first.
/// `later` is the line before the second change, whatever else has happened to it since
/// the first. A change at time zero does not count as recorded, so the first must come
/// later than that.
pub proof fn law_rate_changes_are_paced(
    line: CreditLineData,
    cfg1: RateChangeConfig,
    now1: u64,
    terms1: Terms,
    later: CreditLineData,
    cfg2: RateChangeConfig,
    now2: u64,
    terms2: Terms,
)
    requires
        now1 != 0,
        terms_refusal(line, Some(cfg1), now1, terms1) is None,
        terms1.interest_rate_bps != line.interest_rate_bps,
        later.interest_rate_bps == with_terms(line, now1, terms1).interest_rate_bps,
        later.last_rate_update_ts == with_terms(line, now1, terms1).last_rate_update_ts,
        terms_refusal(later, Some(cfg2), now2, terms2) is None,
        terms2.interest_rate_bps != later.interest_rate_bps,
    ensures
        terms1.interest_rate_bps <= line.interest_rate_bps + cfg1.max_rate_change_bps,
        line.interest_rate_bps <= terms1.interest_rate_bps + cfg1.max_rate_change_bps,
        terms2.interest_rate_bps <= terms1.interest_rate_bps + cfg2.max_rate_change_bps,
        terms1.interest_rate_bps <= terms2.interest_rate_bps + cfg2.max_rate_change_bps,
        cfg2.rate_change_min_interval > 0 ==> now2 - now1 >= cfg2.rate_change_min_interval,
{
}

/// Repeating a granted request, at any time and under any guardrails, is granted and
/// changes nothing.
pub proof fn law_update_is_idempotent(
    line: CreditLineData,
    limits1: Option<RateChangeConfig>,
    now1: u64,
    limits2: Option<RateChangeConfig>,
    now2: u64,
    terms: Terms,
)
    requires
        terms_refusal(line, limits1, now1, terms) is None,
    ensures
        terms_refusal(with_terms(line, now1, terms), limits2, now2, terms) is None,
        with_terms(with_terms(line, now1, terms), now2, terms) == with_terms(line, now1, terms),
{
}

/// What an authorized request sets is in force afterwards, whole and whatever was
/// configured before; the last of several wins. An unauthorized one changes nothing.
pub proof fn law_limits_read_back(
    limits: Option<RateChangeConfig>,
    cfg1: RateChangeConfig,
    cfg2: RateChangeConfig,
)
    ensures
        limits_after_request(true, limits, cfg1) == Some(cfg1),
        limits_after_request(true, limits_after_request(true, limits, cfg1), cfg2) == Some(cfg2),
        limits_after_request(false, limits, cfg1) == limits,
{
}

/// Without the admin's authorization every request is refused in the same way, whatever
/// is stored and whatever it asks for.
pub proof fn law_admin_only(
    stored: Option<CreditLineData>,
    limits: Option<RateChangeConfig>,
    now: u64,
    terms: Terms,
)
    ensures
        update_refusal(false, stored, limits, now, terms) == Some(RiskError::NotAdmin),
{
}

} // verus!
