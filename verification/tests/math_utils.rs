use credit::math_utils::{apply_bps, mul_div, prorate_interest, try_prorate_interest};
use credit::types::OverflowError;

#[test]
fn mul_div_basic() {
    assert_eq!(mul_div(1_000, 300, 10_000), 30);
}

#[test]
fn mul_div_truncates_toward_zero() {
    // 7 * 1 / 3 = 2.33... -> 2
    assert_eq!(mul_div(7, 1, 3), 2);
}

#[test]
fn mul_div_identity_denominator() {
    assert_eq!(mul_div(42, 1, 1), 42);
}

#[test]
fn mul_div_truncates_negative_results_toward_zero() {
    assert_eq!(mul_div(-7, 1, 3), -2);
    assert_eq!(mul_div(7, 1, -3), -2);
    assert_eq!(mul_div(-7, -1, 3), 2);
    assert_eq!(mul_div(-7, 1, -3), 2);
    assert_eq!(mul_div(-1, 1, 3), 0);
}

#[test]
fn mul_div_gives_a_factor_back() {
    assert_eq!(mul_div(-17, 9, 9), -17);
    assert_eq!(mul_div(17, -9, -9), 17);
}

#[test]
fn mul_div_at_the_limits_of_i128() {
    assert_eq!(mul_div(i128::MAX, 1, 1), i128::MAX);
    assert_eq!(mul_div(i128::MIN, 1, 1), i128::MIN);
    assert_eq!(mul_div(i128::MIN, 1, 2), i128::MIN / 2);
    assert_eq!(mul_div(i128::MAX, 1, -1), -i128::MAX);
    assert_eq!(mul_div(5, 1, i128::MIN), 0);
}

#[test]
fn offset_by_denominator_minus_one_rounds_up() {
    // 7 / 3 rounded up, with 3 - 1 added to the dividend
    assert_eq!(mul_div(7 + 2, 1, 3), 3);
    assert_eq!(mul_div(6 + 2, 1, 3), 2);
    assert_eq!(mul_div(-2 + 2, 1, 3), 0);
    // -4 / 3 rounds up to -1, which the offset misses
    assert_eq!(mul_div(-4 + 2, 1, 3), 0);
    // -5 / 3 rounds up to -1
    assert_eq!(mul_div(-5 + 2, 1, 3), -1);
}

#[test]
fn larger_dividends_give_no_smaller_quotients() {
    let mut previous: i128 = mul_div(-10, 1, 4);
    for n in -9..=10 {
        let quotient = mul_div(n, 1, 4);
        assert!(previous <= quotient);
        previous = quotient;
    }
}

#[test]
fn apply_bps_three_percent() {
    assert_eq!(apply_bps(1_000, 300), 30);
}

#[test]
fn apply_bps_half_percent_truncates() {
    assert_eq!(apply_bps(200, 50), 1);
}

#[test]
fn apply_bps_sub_unit_truncates_to_zero() {
    assert_eq!(apply_bps(50, 1), 0);
}

#[test]
fn apply_bps_full_rate() {
    assert_eq!(apply_bps(500, 10_000), 500);
}

#[test]
fn apply_bps_zero_rate() {
    assert_eq!(apply_bps(1_000_000, 0), 0);
}

#[test]
fn apply_bps_one_unit_at_one_bps() {
    assert_eq!(apply_bps(1, 1), 0);
}

#[test]
fn apply_bps_above_full_rate() {
    assert_eq!(apply_bps(500, 25_000), 1_250);
}

#[test]
fn apply_bps_negative_amount() {
    assert_eq!(apply_bps(-1_999, 50), -9);
    assert_eq!(apply_bps(1_999, 50), 9);
}

#[test]
fn apply_bps_grows_with_the_rate() {
    assert_eq!(apply_bps(9_999, 1), 0);
    assert_eq!(apply_bps(9_999, 2), 1);
    assert_eq!(apply_bps(9_999, 9_999), 9_998);
}

#[test]
fn prorate_interest_truncates_a_day_of_interest() {
    // 43_200_000_000_000 / 315_360_000_000 = 136.98...
    assert_eq!(prorate_interest(1_000_000, 500, 86_400), 136);
}

#[test]
fn prorate_interest_zero_elapsed() {
    assert_eq!(prorate_interest(1_000_000, 500, 0), 0);
}

#[test]
fn prorate_interest_zero_principal() {
    assert_eq!(prorate_interest(0, 500, 86_400), 0);
}

#[test]
fn prorate_interest_full_year() {
    // 10% on 100_000 for exactly 1 year = 10_000
    assert_eq!(prorate_interest(100_000, 1_000, 31_536_000), 10_000);
}

#[test]
fn prorate_interest_one_hour() {
    // 5% on 1_000_000 for 3_600 s, about 5
    assert_eq!(prorate_interest(1_000_000, 500, 3_600), 5);
}

#[test]
fn prorate_interest_full_year_is_the_bps_share() {
    assert_eq!(prorate_interest(12_345, 678, 31_536_000), apply_bps(12_345, 678));
    assert_eq!(prorate_interest(-12_345, 678, 31_536_000), apply_bps(-12_345, 678));
}

#[test]
fn prorate_interest_on_a_negative_principal() {
    assert_eq!(prorate_interest(-1_000_000, 500, 86_400), -136);
}

#[test]
fn splitting_a_period_loses_at_most_one_unit() {
    // 5.7 per hour: twice 5 against 11
    assert_eq!(prorate_interest(1_000_000, 500, 3_600), 5);
    assert_eq!(prorate_interest(1_000_000, 500, 7_200), 11);
}

#[test]
fn zero_elapsed_or_principal_never_overflows() {
    assert_eq!(try_prorate_interest(i128::MAX, u32::MAX, 0), Ok(0));
    assert_eq!(try_prorate_interest(0, u32::MAX, u64::MAX), Ok(0));
}

#[test]
fn zero_rate_never_overflows() {
    assert_eq!(try_prorate_interest(i128::MIN, 0, u64::MAX), Ok(0));
}

#[test]
fn rate_product_overflow_is_reported() {
    assert_eq!(try_prorate_interest(i128::MAX, 2, 1), Err(OverflowError::RateProduct));
    assert_eq!(try_prorate_interest(i128::MIN, 2, 1), Err(OverflowError::RateProduct));
}

#[test]
fn elapsed_product_overflow_is_reported() {
    assert_eq!(try_prorate_interest(i128::MAX, 1, 2), Err(OverflowError::ElapsedProduct));
    assert_eq!(try_prorate_interest(i128::MIN, 1, 2), Err(OverflowError::ElapsedProduct));
}

#[test]
fn largest_product_that_fits() {
    assert_eq!(
        try_prorate_interest(i128::MAX, 1, 1),
        Ok(i128::MAX / 315_360_000_000)
    );
}

#[test]
fn overflow_messages() {
    assert_eq!(
        OverflowError::RateProduct.message(),
        "prorate_interest: principal * rate_bps overflowed i128"
    );
    assert_eq!(
        OverflowError::ElapsedProduct.message(),
        "prorate_interest: product with elapsed_secs overflowed i128"
    );
    assert_eq!(
        OverflowError::AccruedInterest.message(),
        "apply_accrual: accrued_interest overflowed i128"
    );
}
