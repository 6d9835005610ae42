use credit::accrual::{apply_accrual, try_apply_accrual};
use credit::types::{CreditLineData, OverflowError};

fn line() -> CreditLineData {
    CreditLineData {
        credit_limit: 2_000_000,
        utilized_amount: 1_000_000,
        interest_rate_bps: 500,
        risk_score: 40,
        last_rate_update_ts: 17,
        accrued_interest: 1_000,
        last_accrual_ts: 0,
    }
}

#[test]
fn one_day_of_interest_is_added() {
    let mut credit_line = line();
    assert_eq!(apply_accrual(86_400, &mut credit_line), 136);
    assert_eq!(
        credit_line,
        CreditLineData { accrued_interest: 1_136, last_accrual_ts: 86_400, ..line() }
    );
}

#[test]
fn second_accrual_at_the_same_moment_charges_nothing() {
    let mut credit_line = line();
    apply_accrual(86_400, &mut credit_line);
    let after_first = credit_line;
    assert_eq!(apply_accrual(86_400, &mut credit_line), 0);
    assert_eq!(credit_line, after_first);
}

#[test]
fn clock_before_last_accrual_charges_nothing_and_is_recorded() {
    let mut credit_line = CreditLineData { last_accrual_ts: 500, ..line() };
    assert_eq!(apply_accrual(400, &mut credit_line), 0);
    assert_eq!(credit_line, CreditLineData { last_accrual_ts: 400, ..line() });
}

#[test]
fn undrawn_line_and_zero_rate_charge_nothing() {
    let mut undrawn = CreditLineData { utilized_amount: 0, ..line() };
    assert_eq!(apply_accrual(86_400, &mut undrawn), 0);
    assert_eq!(undrawn.accrued_interest, 1_000);
    let mut free = CreditLineData { interest_rate_bps: 0, ..line() };
    assert_eq!(apply_accrual(86_400, &mut free), 0);
    assert_eq!(free.last_accrual_ts, 86_400);
}

#[test]
fn accruing_in_steps_drops_fractions() {
    let mut at_once = line();
    assert_eq!(apply_accrual(7_200, &mut at_once), 11);
    let mut in_steps = line();
    assert_eq!(apply_accrual(3_600, &mut in_steps), 5);
    assert_eq!(apply_accrual(7_200, &mut in_steps), 5);
    assert_eq!(at_once.accrued_interest, in_steps.accrued_interest + 1);
}

#[test]
fn sub_unit_interest_is_not_carried_forward() {
    let mut credit_line = CreditLineData { utilized_amount: 10, ..line() };
    assert_eq!(apply_accrual(3_600, &mut credit_line), 0);
    assert_eq!(credit_line.accrued_interest, 1_000);
    assert_eq!(credit_line.last_accrual_ts, 3_600);
}

#[test]
fn each_overflow_is_reported_and_changes_nothing() {
    let rate_product = CreditLineData { utilized_amount: i128::MAX, ..line() };
    let mut credit_line = rate_product;
    assert_eq!(try_apply_accrual(1, &mut credit_line), Err(OverflowError::RateProduct));
    assert_eq!(credit_line, rate_product);

    let elapsed_product =
        CreditLineData { utilized_amount: i128::MAX, interest_rate_bps: 1, ..line() };
    let mut credit_line = elapsed_product;
    assert_eq!(try_apply_accrual(2, &mut credit_line), Err(OverflowError::ElapsedProduct));
    assert_eq!(credit_line, elapsed_product);

    let total = CreditLineData { accrued_interest: i128::MAX - 135, ..line() };
    let mut credit_line = total;
    assert_eq!(
        try_apply_accrual(86_400, &mut credit_line),
        Err(OverflowError::AccruedInterest)
    );
    assert_eq!(credit_line, total);
}

#[test]
fn largest_total_is_reached() {
    let mut credit_line = CreditLineData { accrued_interest: i128::MAX - 136, ..line() };
    assert_eq!(try_apply_accrual(86_400, &mut credit_line), Ok(136));
    assert_eq!(credit_line.accrued_interest, i128::MAX);
}
