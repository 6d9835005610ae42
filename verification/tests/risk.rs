use credit::risk::{
    compute_rate_from_score, get_rate_change_limits, set_rate_change_limits,
    update_risk_parameters,
};
use credit::types::{
    CreditLineData, RateChangeConfig, RiskError, RiskParametersUpdatedEvent,
};

fn line() -> CreditLineData {
    CreditLineData {
        credit_limit: 5_000,
        utilized_amount: 1_000,
        interest_rate_bps: 500,
        risk_score: 40,
        last_rate_update_ts: 1_000,
        accrued_interest: 12,
        last_accrual_ts: 900,
    }
}

fn limits(max_rate_change_bps: u32, rate_change_min_interval: u64) -> Option<RateChangeConfig> {
    Some(RateChangeConfig { max_rate_change_bps, rate_change_min_interval })
}

/// Sends an authorized request and checks that a refusal leaves the record as it was.
fn request(
    before: CreditLineData,
    guardrails: Option<RateChangeConfig>,
    now: u64,
    credit_limit: i128,
    interest_rate_bps: u32,
    risk_score: u32,
) -> Result<CreditLineData, RiskError> {
    let mut stored = Some(before);
    let outcome = update_risk_parameters(
        true,
        &mut stored,
        &guardrails,
        now,
        "borrower",
        credit_limit,
        interest_rate_bps,
        risk_score,
    );
    match outcome {
        Ok(event) => {
            assert_eq!(
                event,
                RiskParametersUpdatedEvent {
                    borrower: "borrower",
                    credit_limit,
                    interest_rate_bps,
                    risk_score,
                }
            );
            Ok(stored.unwrap())
        }
        Err(error) => {
            assert_eq!(stored, Some(before));
            Err(error)
        }
    }
}

#[test]
fn score_maps_linearly_onto_the_range() {
    assert_eq!(compute_rate_from_score(50, 200, 800), 500);
    assert_eq!(compute_rate_from_score(0, 200, 800), 200);
    assert_eq!(compute_rate_from_score(100, 200, 800), 800);
}

#[test]
fn score_rate_truncates() {
    assert_eq!(compute_rate_from_score(1, 0, 999), 9);
}

#[test]
fn score_above_hundred_extrapolates() {
    assert_eq!(compute_rate_from_score(150, 200, 800), 1_100);
}

#[test]
fn score_spans_the_widest_range() {
    assert_eq!(compute_rate_from_score(100, 0, u32::MAX), u32::MAX);
    assert_eq!(compute_rate_from_score(50, 0, u32::MAX), u32::MAX / 2);
    assert_eq!(compute_rate_from_score(u32::MAX, 7, 7), 7);
}

#[test]
fn higher_scores_never_have_lower_rates() {
    let mut previous = compute_rate_from_score(0, 33, 77);
    for score in 1..=100 {
        let rate = compute_rate_from_score(score, 33, 77);
        assert!(previous <= rate && rate <= 77);
        previous = rate;
    }
}

#[test]
fn granted_update_replaces_the_terms() {
    assert_eq!(
        request(line(), None, 2_000, 9_000, 700, 55),
        Ok(CreditLineData {
            credit_limit: 9_000,
            interest_rate_bps: 700,
            risk_score: 55,
            last_rate_update_ts: 2_000,
            ..line()
        })
    );
}

#[test]
fn unchanged_rate_keeps_the_time_of_the_last_change() {
    assert_eq!(
        request(line(), limits(0, u64::MAX), 1_001, 9_000, 500, 55),
        Ok(CreditLineData { credit_limit: 9_000, risk_score: 55, ..line() })
    );
}

#[test]
fn update_without_authorization_is_refused() {
    let mut stored = Some(line());
    let outcome = update_risk_parameters(false, &mut stored, &None, 2_000, 1u8, 9_000, 700, 55);
    assert_eq!(outcome, Err(RiskError::NotAdmin));
    assert_eq!(stored, Some(line()));
}

#[test]
fn update_of_a_missing_line_is_refused() {
    let mut stored = None;
    let outcome = update_risk_parameters(true, &mut stored, &None, 2_000, 1u8, -1, 700, 55);
    assert_eq!(outcome, Err(RiskError::CreditLineNotFound));
    assert_eq!(stored, None);
}

#[test]
fn negative_limit_is_refused() {
    assert_eq!(
        request(line(), None, 2_000, -1, 700, 55),
        Err(RiskError::NegativeCreditLimit)
    );
    let undrawn = CreditLineData { utilized_amount: 0, ..line() };
    assert!(request(undrawn, None, 2_000, 0, 700, 55).is_ok());
}

#[test]
fn limit_below_the_debt_is_refused() {
    assert_eq!(
        request(line(), None, 2_000, 999, 700, 55),
        Err(RiskError::LimitBelowUtilized)
    );
    assert!(request(line(), None, 2_000, 1_000, 700, 55).is_ok());
}

#[test]
fn rate_above_hundred_percent_is_refused() {
    assert_eq!(
        request(line(), None, 2_000, 9_000, 10_001, 55),
        Err(RiskError::RateAboveMaximum)
    );
    assert!(request(line(), None, 2_000, 9_000, 10_000, 55).is_ok());
}

#[test]
fn score_above_hundred_is_refused() {
    assert_eq!(
        request(line(), None, 2_000, 9_000, 700, 101),
        Err(RiskError::ScoreAboveMaximum)
    );
    assert!(request(line(), None, 2_000, 9_000, 700, 100).is_ok());
}

#[test]
fn rate_change_beyond_the_cap_is_refused() {
    let capped = limits(100, 0);
    assert_eq!(
        request(line(), capped, 2_000, 9_000, 601, 55),
        Err(RiskError::RateDeltaTooLarge)
    );
    assert_eq!(
        request(line(), capped, 2_000, 9_000, 399, 55),
        Err(RiskError::RateDeltaTooLarge)
    );
    assert!(request(line(), capped, 2_000, 9_000, 600, 55).is_ok());
    assert!(request(line(), capped, 2_000, 9_000, 400, 55).is_ok());
}

#[test]
fn rate_change_before_the_interval_is_refused() {
    let paced = limits(u32::MAX, 100);
    assert_eq!(
        request(line(), paced, 1_099, 9_000, 700, 55),
        Err(RiskError::RateChangeTooSoon)
    );
    assert!(request(line(), paced, 1_100, 9_000, 700, 55).is_ok());
    // A clock that stands before the last change counts as no time passed.
    assert_eq!(
        request(line(), paced, 10, 9_000, 700, 55),
        Err(RiskError::RateChangeTooSoon)
    );
}

#[test]
fn first_rate_change_does_not_wait() {
    let fresh = CreditLineData { last_rate_update_ts: 0, ..line() };
    assert!(request(fresh, limits(u32::MAX, u64::MAX), 5, 9_000, 700, 55).is_ok());
}

#[test]
fn disabled_guardrails_allow_any_change() {
    assert!(request(line(), limits(u32::MAX, 0), 1_000, 9_000, 10_000, 55).is_ok());
    assert!(request(line(), None, 1_000, 9_000, 0, 55).is_ok());
}

#[test]
fn size_is_checked_before_time() {
    assert_eq!(
        request(line(), limits(100, 100), 1_001, 9_000, 700, 55),
        Err(RiskError::RateDeltaTooLarge)
    );
}

#[test]
fn terms_are_checked_in_order() {
    assert_eq!(
        request(line(), limits(0, 100), 1_001, -5, 20_000, 200),
        Err(RiskError::NegativeCreditLimit)
    );
    assert_eq!(
        request(line(), limits(0, 100), 1_001, 5, 20_000, 200),
        Err(RiskError::LimitBelowUtilized)
    );
    assert_eq!(
        request(line(), limits(0, 100), 1_001, 5_000, 20_000, 200),
        Err(RiskError::RateAboveMaximum)
    );
    assert_eq!(
        request(line(), limits(0, 100), 1_001, 5_000, 700, 200),
        Err(RiskError::ScoreAboveMaximum)
    );
}

#[test]
fn consecutive_rate_changes_are_paced() {
    let paced = limits(200, 100);
    let first = request(line(), paced, 1_100, 9_000, 700, 55).unwrap();
    assert_eq!(
        request(first, paced, 1_199, 9_000, 900, 55),
        Err(RiskError::RateChangeTooSoon)
    );
    assert_eq!(
        request(first, paced, 1_200, 9_000, 901, 55),
        Err(RiskError::RateDeltaTooLarge)
    );
    let second = request(first, paced, 1_200, 9_000, 900, 55).unwrap();
    assert_eq!(second.last_rate_update_ts, 1_200);
}

#[test]
fn rate_change_at_time_zero_is_not_recorded() {
    let paced = limits(u32::MAX, 100);
    let fresh = CreditLineData { last_rate_update_ts: 0, ..line() };
    let first = request(fresh, paced, 0, 9_000, 700, 55).unwrap();
    assert!(request(first, paced, 1, 9_000, 800, 55).is_ok());
}

#[test]
fn repeating_an_update_changes_nothing() {
    let first = request(line(), None, 2_000, 9_000, 700, 55).unwrap();
    assert_eq!(request(first, limits(0, 100), 2_001, 9_000, 700, 55), Ok(first));
}

#[test]
fn limits_are_read_back() {
    let mut guardrails = None;
    assert_eq!(get_rate_change_limits(&guardrails), None);
    assert_eq!(set_rate_change_limits(true, &mut guardrails, 100, 3_600), Ok(()));
    assert_eq!(get_rate_change_limits(&guardrails), limits(100, 3_600));
    assert_eq!(set_rate_change_limits(true, &mut guardrails, 7, 0), Ok(()));
    assert_eq!(get_rate_change_limits(&guardrails), limits(7, 0));
}

#[test]
fn limits_without_authorization_stay() {
    let mut guardrails = limits(100, 3_600);
    assert_eq!(
        set_rate_change_limits(false, &mut guardrails, 7, 0),
        Err(RiskError::NotAdmin)
    );
    assert_eq!(guardrails, limits(100, 3_600));
}

#[test]
fn refusal_messages() {
    let expected = [
        (RiskError::NotAdmin, "caller is not the contract admin"),
        (RiskError::CreditLineNotFound, "Credit line not found"),
        (RiskError::NegativeCreditLimit, "credit_limit must be non-negative"),
        (
            RiskError::LimitBelowUtilized,
            "credit_limit cannot be less than utilized amount",
        ),
        (RiskError::RateAboveMaximum, "interest_rate_bps exceeds maximum"),
        (RiskError::ScoreAboveMaximum, "risk_score exceeds maximum"),
        (
            RiskError::RateDeltaTooLarge,
            "rate change exceeds maximum allowed delta",
        ),
        (
            RiskError::RateChangeTooSoon,
            "rate change too soon: minimum interval not elapsed",
        ),
    ];
    for (error, message) in expected {
        assert_eq!(error.message(), message);
    }
}
