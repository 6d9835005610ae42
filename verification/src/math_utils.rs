//! Pure integer arithmetic on amounts, basis-point rates and elapsed time.
//!
//! Division truncates toward zero throughout.

use vstd::prelude::*;

use crate::rounding::{
    fits_i128, law_trunc_div_monotone, law_trunc_div_of_multiple, law_trunc_div_of_sum,
    law_trunc_div_remainder, law_trunc_div_unique, magnitude, trunc_div,
};
use crate::types::OverflowError;

verus! {

/// Basis points in 100%.
pub const BPS_DENOMINATOR: i128 = 10_000;

/// Seconds in a 365-day year.
pub const SECONDS_PER_YEAR: i128 = 31_536_000;

/// The share of `amount` that a rate of `rate_bps` basis points denotes.
pub open spec fn bps_share(amount: int, rate_bps: int) -> int {
    trunc_div(amount * rate_bps, BPS_DENOMINATOR as int)
}

/// The interest on `principal` at the annual rate `rate_bps` for `elapsed` seconds.
pub open spec fn prorated(principal: int, rate_bps: int, elapsed: int) -> int {
    trunc_div(principal * rate_bps * elapsed, BPS_DENOMINATOR * SECONDS_PER_YEAR)
}

/// Multiplies `value` by `numerator`, then divides by `denominator`, truncating
/// toward zero.
pub fn mul_div(value: i128, numerator: i128, denominator: i128) -> (result: i128)
    requires
        denominator != 0,
        fits_i128(value * numerator),
        fits_i128(trunc_div(value * numerator, denominator as int)),
    ensures
        result == trunc_div(value * numerator, denominator as int),
        value * numerator >= 0 ==> 0 <= value * numerator - result * denominator < (
        if denominator < 0 {
            -(denominator as int)
        } else {
            denominator as int
        }),
        value * numerator <= 0 ==> 0 <= result * denominator - value * numerator < (
        if denominator < 0 {
            -(denominator as int)
        } else {
            denominator as int
        }),
{
    let product: i128 = value.checked_mul(numerator).unwrap();
    proof {
        law_trunc_div_remainder(value * numerator, denominator as int);
    }
    product / denominator
}

/// Applies a rate in basis points to an amount, truncating toward zero. Rates above
/// 10 000 are accepted and denote more than 100%.
pub fn apply_bps(amount: i128, rate_bps: u32) -> (share: i128)
    requires
        fits_i128(amount * rate_bps),
    ensures
        share == bps_share(amount as int, rate_bps as int),
        amount >= 0 ==> share * 10_000 <= amount * rate_bps < (share + 1) * 10_000,
        amount <= 0 ==> (share - 1) * 10_000 < amount * rate_bps <= share * 10_000,
{
    proof {
        law_bps_exact(amount as int, rate_bps as int);
    }
    mul_div(amount, rate_bps as i128, BPS_DENOMINATOR)
}

/// Pro-rates an annual interest charge to `elapsed_secs` seconds of a 365-day year,
/// truncating toward zero. No interest is due on a zero principal or for zero seconds.
pub fn prorate_interest(principal: i128, rate_bps: u32, elapsed_secs: u64) -> (interest: i128)
    requires
        fits_i128(principal * rate_bps * elapsed_secs),
    ensures
        interest == prorated(principal as int, rate_bps as int, elapsed_secs as int),
        principal >= 0 ==> interest * 315_360_000_000 <= principal * rate_bps * elapsed_secs < (
        interest + 1) * 315_360_000_000,
        principal <= 0 ==> (interest - 1) * 315_360_000_000 < principal * rate_bps * elapsed_secs
            <= interest * 315_360_000_000,
{
    try_prorate_interest(principal, rate_bps, elapsed_secs).unwrap()
}

/// As [`prorate_interest`], for every input: reports the product that leaves the
/// range of `i128`, if one does.
pub fn try_prorate_interest(principal: i128, rate_bps: u32, elapsed_secs: u64) -> (result: Result<
    i128,
    OverflowError,
>)
    ensures
        result is Ok <==> fits_i128(principal * rate_bps * elapsed_secs),
        result matches Ok(interest) ==> interest == prorated(
            principal as int,
            rate_bps as int,
            elapsed_secs as int,
        ),
        result is Ok <==> i128::MIN <= principal * rate_bps * elapsed_secs <= i128::MAX,
        result matches Ok(interest) ==> {
            &&& principal >= 0 ==> interest * 315_360_000_000 <= principal * rate_bps * elapsed_secs
                < (interest + 1) * 315_360_000_000
            &&& principal <= 0 ==> (interest - 1) * 315_360_000_000 < principal * rate_bps
                * elapsed_secs <= interest * 315_360_000_000
        },
        result == Err::<i128, _>(OverflowError::RateProduct) <==> elapsed_secs != 0 && !fits_i128(
            principal * rate_bps,
        ),
        result == Err::<i128, _>(OverflowError::ElapsedProduct) <==> fits_i128(principal * rate_bps)
            && !fits_i128(principal * rate_bps * elapsed_secs),
{
    proof {
        law_prorate_exact(principal as int, rate_bps as int, elapsed_secs as int);
    }
    if elapsed_secs == 0 || principal == 0 {
        proof {
            law_prorate_nothing_due(principal as int, rate_bps as int, elapsed_secs as int);
        }
        return Ok(0);
    }
    proof {
        lemma_factor_fits(principal * rate_bps, elapsed_secs as int);
    }
    match principal.checked_mul(rate_bps as i128) {
        None => Err(OverflowError::RateProduct),
        Some(charge) => match charge.checked_mul(elapsed_secs as i128) {
            None => Err(OverflowError::ElapsedProduct),
            Some(numerator) => Ok(numerator / (BPS_DENOMINATOR * SECONDS_PER_YEAR)),
        },
    }
}

/// The share is the amount times the rate, measured in units of ten thousand basis points
/// and cut off toward zero.
pub proof fn law_bps_exact(amount: int, rate_bps: int)
    requires
        0 <= rate_bps,
    ensures
        ({
            let share = bps_share(amount, rate_bps);
            &&& amount >= 0 ==> share * 10_000 <= amount * rate_bps < (share + 1) * 10_000
            &&& amount <= 0 ==> (share - 1) * 10_000 < amount * rate_bps <= share * 10_000
        }),
{
    lemma_product_monotone(amount, 0, rate_bps);
    law_trunc_div_remainder(amount * rate_bps, 10_000);
}

/// The interest is the principal times the rate times the elapsed seconds, measured in
/// units of ten thousand basis points times the seconds of 365 days, and cut off toward
/// zero.
pub proof fn law_prorate_exact(principal: int, rate_bps: int, elapsed: int)
    requires
        0 <= rate_bps,
        0 <= elapsed,
    ensures
        ({
            let interest = prorated(principal, rate_bps, elapsed);
            let product = principal * rate_bps * elapsed;
            &&& principal >= 0 ==> interest * 315_360_000_000 <= product < (interest + 1) * 315_360_000_000
            &&& principal <= 0 ==> (interest - 1) * 315_360_000_000 < product <= interest * 315_360_000_000
        }),
{
    let charge = principal * rate_bps;
    lemma_product_monotone(principal, 0, rate_bps);
    lemma_product_monotone(charge, 0, elapsed);
    law_trunc_div_remainder(charge * elapsed, 315_360_000_000);
}

/// No interest is due on a zero principal, at a zero rate or for zero seconds.
pub proof fn law_prorate_nothing_due(principal: int, rate_bps: int, elapsed: int)
    requires
        principal == 0 || rate_bps == 0 || elapsed == 0,
    ensures
        principal * rate_bps * elapsed == 0,
        prorated(principal, rate_bps, elapsed) == 0,
{
    assert(principal * rate_bps * elapsed == 0) by (nonlinear_arith)
        requires
            principal == 0 || rate_bps == 0 || elapsed == 0,
    ;
}

/// A rate of 100% gives the amount back and a rate of zero gives nothing.
pub proof fn law_bps_full_and_zero_rate(amount: int)
    ensures
        bps_share(amount, BPS_DENOMINATOR as int) == amount,
        bps_share(amount, 0) == 0,
{
    law_trunc_div_of_multiple(amount, BPS_DENOMINATOR as int);
}

/// A share never has the opposite sign of the amount. Up to 100% it is never farther
/// from zero than the amount, from 100% on never nearer to it.
pub proof fn law_bps_share_against_amount(amount: int, rate_bps: int)
    requires
        0 <= rate_bps,
    ensures
        amount >= 0 ==> bps_share(amount, rate_bps) >= 0,
        amount <= 0 ==> bps_share(amount, rate_bps) <= 0,
        rate_bps <= BPS_DENOMINATOR ==> magnitude(bps_share(amount, rate_bps)) <= magnitude(amount),
        rate_bps >= BPS_DENOMINATOR ==> magnitude(bps_share(amount, rate_bps)) >= magnitude(amount),
{
    law_bps_full_and_zero_rate(amount);
    law_bps_monotone_in_rate(amount, 0, rate_bps);
    if rate_bps <= BPS_DENOMINATOR {
        law_bps_monotone_in_rate(amount, rate_bps, BPS_DENOMINATOR as int);
    } else {
        law_bps_monotone_in_rate(amount, BPS_DENOMINATOR as int, rate_bps);
    }
}

/// A higher rate never takes a smaller share of an amount.
pub proof fn law_bps_monotone_in_rate(amount: int, rate1: int, rate2: int)
    requires
        rate1 <= rate2,
    ensures
        amount >= 0 ==> bps_share(amount, rate1) <= bps_share(amount, rate2),
        amount <= 0 ==> bps_share(amount, rate1) >= bps_share(amount, rate2),
{
    lemma_product_monotone(amount, rate1, rate2);
    if amount >= 0 {
        law_trunc_div_monotone(amount * rate1, amount * rate2, BPS_DENOMINATOR as int);
    } else {
        law_trunc_div_monotone(amount * rate2, amount * rate1, BPS_DENOMINATOR as int);
    }
}

/// At a fixed rate that is not negative, a larger amount never has a smaller share.
pub proof fn law_bps_monotone_in_amount(amount1: int, amount2: int, rate_bps: int)
    requires
        amount1 <= amount2,
        0 <= rate_bps,
    ensures
        bps_share(amount1, rate_bps) <= bps_share(amount2, rate_bps),
{
    lemma_product_monotone(rate_bps, amount1, amount2);
    law_trunc_div_monotone(amount1 * rate_bps, amount2 * rate_bps, BPS_DENOMINATOR as int);
}

/// A full year's interest is the share of the principal that the annual rate denotes.
pub proof fn law_prorate_full_year(principal: int, rate_bps: int)
    ensures
        prorated(principal, rate_bps, SECONDS_PER_YEAR as int) == bps_share(principal, rate_bps),
{
    let n = principal * rate_bps;
    let year = SECONDS_PER_YEAR as int;
    let q = bps_share(principal, rate_bps);
    law_trunc_div_remainder(n, BPS_DENOMINATOR as int);
    law_trunc_div_unique(n * year, BPS_DENOMINATOR * year, q);
}

/// More time never costs less: for a rate that is not negative, interest on a positive
/// principal grows with the elapsed time, and on a negative one falls.
pub proof fn law_prorate_monotone_in_time(principal: int, rate_bps: int, elapsed1: int, elapsed2: int)
    requires
        0 <= rate_bps,
        elapsed1 <= elapsed2,
    ensures
        principal >= 0 ==> prorated(principal, rate_bps, elapsed1) <= prorated(
            principal,
            rate_bps,
            elapsed2,
        ),
        principal <= 0 ==> prorated(principal, rate_bps, elapsed1) >= prorated(
            principal,
            rate_bps,
            elapsed2,
        ),
{
    let n = principal * rate_bps;
    let d = BPS_DENOMINATOR * SECONDS_PER_YEAR;
    lemma_product_monotone(principal, 0, rate_bps);
    lemma_product_monotone(n, elapsed1, elapsed2);
    if principal >= 0 {
        law_trunc_div_monotone(n * elapsed1, n * elapsed2, d);
    } else {
        law_trunc_div_monotone(n * elapsed2, n * elapsed1, d);
    }
}

/// At a rate that is not negative, a larger principal never bears less interest for the
/// same period.
pub proof fn law_prorate_monotone_in_principal(
    principal1: int,
    principal2: int,
    rate_bps: int,
    elapsed: int,
)
    requires
        principal1 <= principal2,
        0 <= rate_bps,
        0 <= elapsed,
    ensures
        prorated(principal1, rate_bps, elapsed) <= prorated(principal2, rate_bps, elapsed),
{
    lemma_product_monotone(rate_bps, principal1, principal2);
    lemma_product_monotone(elapsed, principal1 * rate_bps, principal2 * rate_bps);
    law_trunc_div_monotone(
        principal1 * rate_bps * elapsed,
        principal2 * rate_bps * elapsed,
        BPS_DENOMINATOR * SECONDS_PER_YEAR,
    );
}

/// A higher rate never charges a positive principal less for the same period, nor
/// credits a negative one less.
pub proof fn law_prorate_monotone_in_rate(principal: int, rate1: int, rate2: int, elapsed: int)
    requires
        rate1 <= rate2,
        0 <= elapsed,
    ensures
        principal >= 0 ==> prorated(principal, rate1, elapsed) <= prorated(
            principal,
            rate2,
            elapsed,
        ),
        principal <= 0 ==> prorated(principal, rate1, elapsed) >= prorated(
            principal,
            rate2,
            elapsed,
        ),
{
    let n1 = principal * rate1;
    let n2 = principal * rate2;
    let d = BPS_DENOMINATOR * SECONDS_PER_YEAR;
    lemma_product_monotone(principal, rate1, rate2);
    if principal >= 0 {
        lemma_product_monotone(elapsed, n1, n2);
        law_trunc_div_monotone(n1 * elapsed, n2 * elapsed, d);
    } else {
        lemma_product_monotone(elapsed, n2, n1);
        law_trunc_div_monotone(n2 * elapsed, n1 * elapsed, d);
    }
}

/// Charging two periods separately never yields more than charging them at once, and
/// at most one unit less: what truncation drops is not carried forward. On a negative
/// principal the same holds with the signs reversed.
pub proof fn law_prorate_split_period(principal: int, rate_bps: int, elapsed1: int, elapsed2: int)
    requires
        0 <= rate_bps,
        0 <= elapsed1,
        0 <= elapsed2,
    ensures
        ({
            let apart = prorated(principal, rate_bps, elapsed1) + prorated(
                principal,
                rate_bps,
                elapsed2,
            );
            let at_once = prorated(principal, rate_bps, elapsed1 + elapsed2);
            &&& principal >= 0 ==> apart <= at_once <= apart + 1
            &&& principal <= 0 ==> apart - 1 <= at_once <= apart
        }),
{
    let n = principal * rate_bps;
    let d = BPS_DENOMINATOR * SECONDS_PER_YEAR;
    let whole = elapsed1 + elapsed2;
    lemma_product_monotone(principal, 0, rate_bps);
    lemma_product_monotone(n, 0, elapsed1);
    lemma_product_monotone(n, 0, elapsed2);
    assert(n * whole == n * elapsed1 + n * elapsed2) by (nonlinear_arith)
        requires
            whole == elapsed1 + elapsed2,
    ;
    law_trunc_div_of_sum(n * elapsed1, n * elapsed2, d);
}

/// Multiplying by a number preserves the order, or reverses it if the number is negative.
proof fn lemma_product_monotone(k: int, x: int, y: int)
    requires
        x <= y,
    ensures
        k >= 0 ==> k * x <= k * y && x * k <= y * k,
        k <= 0 ==> k * x >= k * y && x * k >= y * k,
{
    assert(k >= 0 ==> k * x <= k * y && x * k <= y * k) by (nonlinear_arith)
        requires
            x <= y,
    ;
    assert(k <= 0 ==> k * x >= k * y && x * k >= y * k) by (nonlinear_arith)
        requires
            x <= y,
    ;
}

/// A product with a positive factor fits only if the other factor does.
proof fn lemma_factor_fits(n: int, k: int)
    requires
        k >= 1,
    ensures
        fits_i128(n * k) ==> fits_i128(n),
{
    assert(n >= 0 ==> n <= n * k) by (nonlinear_arith)
        requires
            k >= 1,
    ;
    assert(n <= 0 ==> n * k <= n) by (nonlinear_arith)
        requires
            k >= 1,
    ;
}

} // verus!
