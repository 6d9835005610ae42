//! Interest accrual for credit lines.
//!
//! Interest is computed on a 365-day year and added to `accrued_interest`. It does not
//! increase `utilized_amount`: the caller decides when to capitalise.

use vstd::prelude::*;

use crate::math_utils::{
    law_prorate_exact, law_prorate_monotone_in_time, law_prorate_nothing_due,
    law_prorate_split_period, prorated, try_prorate_interest,
};
use crate::rounding::fits_i128;
use crate::types::{CreditLineData, OverflowError};

verus! {

/// Seconds from `since` to `now`, or zero when the clock stands before `since`.
pub open spec fn elapsed_secs(since: u64, now: u64) -> int {
    if now > since {
        now - since
    } else {
        0
    }
}

/// The product that the pro-rated interest of `line` at `now` is taken from.
pub open spec fn interest_product(line: CreditLineData, now: u64) -> int {
    line.utilized_amount * line.interest_rate_bps * elapsed_secs(line.last_accrual_ts, now)
}

/// The interest that has become due on `line` between its last accrual and `now`.
pub open spec fn interest_due(line: CreditLineData, now: u64) -> int {
    prorated(
        line.utilized_amount as int,
        line.interest_rate_bps as int,
        elapsed_secs(line.last_accrual_ts, now),
    )
}

/// Accruing interest on `line` at `now` stays in the range of `i128`.
pub open spec fn accrual_fits(line: CreditLineData, now: u64) -> bool {
    &&& fits_i128(interest_product(line, now))
    &&& fits_i128(line.accrued_interest + interest_due(line, now))
}

/// The record after accruing interest on `line` at `now`.
pub open spec fn accrued(line: CreditLineData, now: u64) -> CreditLineData
    recommends
        accrual_fits(line, now),
{
    CreditLineData {
        accrued_interest: (line.accrued_interest + interest_due(line, now)) as i128,
        last_accrual_ts: now,
        ..line
    }
}

/// Adds the interest due since the last accrual to `credit_line`, records `now` as the
/// time of the last accrual, and returns the interest added. Where the clock stands
/// before the last accrual no interest is due.
pub fn apply_accrual(now: u64, credit_line: &mut CreditLineData) -> (interest: i128)
    requires
        accrual_fits(*old(credit_line), now),
    ensures
        interest == interest_due(*old(credit_line), now),
        *final(credit_line) == accrued(*old(credit_line), now),
        ({
            &&& final(credit_line).accrued_interest == old(credit_line).accrued_interest + interest
            &&& final(credit_line).last_accrual_ts == now
            &&& final(credit_line).credit_limit == old(credit_line).credit_limit
            &&& final(credit_line).utilized_amount == old(credit_line).utilized_amount
            &&& final(credit_line).interest_rate_bps == old(credit_line).interest_rate_bps
            &&& final(credit_line).risk_score == old(credit_line).risk_score
            &&& final(credit_line).last_rate_update_ts == old(credit_line).last_rate_update_ts
            &&& now <= old(credit_line).last_accrual_ts ==> interest == 0
            &&& now >= old(credit_line).last_accrual_ts && old(credit_line).utilized_amount >= 0 ==> {
                let product = old(credit_line).utilized_amount * old(credit_line).interest_rate_bps * (now
                    - old(credit_line).last_accrual_ts);
                interest * 315_360_000_000 <= product < (interest + 1) * 315_360_000_000
            }
            &&& now >= old(credit_line).last_accrual_ts && old(credit_line).utilized_amount <= 0 ==> {
                let product = old(credit_line).utilized_amount * old(credit_line).interest_rate_bps * (now
                    - old(credit_line).last_accrual_ts);
                (interest - 1) * 315_360_000_000 < product <= interest * 315_360_000_000
            }
        }),
{
    try_apply_accrual(now, credit_line).unwrap()
}

/// As [`apply_accrual`], for every record: where the computation leaves the range of
/// `i128` it reports where, and leaves the record as it was.
pub fn try_apply_accrual(now: u64, credit_line: &mut CreditLineData) -> (result: Result<
    i128,
    OverflowError,
>)
    ensures
        result is Ok <==> accrual_fits(*old(credit_line), now),
        result matches Ok(interest) ==> {
            &&& interest == interest_due(*old(credit_line), now)
            &&& *final(credit_line) == accrued(*old(credit_line), now)
            &&& final(credit_line).accrued_interest == old(credit_line).accrued_interest + interest
            &&& final(credit_line).last_accrual_ts == now
            &&& final(credit_line).credit_limit == old(credit_line).credit_limit
            &&& final(credit_line).utilized_amount == old(credit_line).utilized_amount
            &&& final(credit_line).interest_rate_bps == old(credit_line).interest_rate_bps
            &&& final(credit_line).risk_score == old(credit_line).risk_score
            &&& final(credit_line).last_rate_update_ts == old(credit_line).last_rate_update_ts
            &&& now <= old(credit_line).last_accrual_ts ==> interest == 0
            &&& now >= old(credit_line).last_accrual_ts && old(credit_line).utilized_amount >= 0 ==> {
                let product = old(credit_line).utilized_amount * old(credit_line).interest_rate_bps * (now
                    - old(credit_line).last_accrual_ts);
                interest * 315_360_000_000 <= product < (interest + 1) * 315_360_000_000
            }
            &&& now >= old(credit_line).last_accrual_ts && old(credit_line).utilized_amount <= 0 ==> {
                let product = old(credit_line).utilized_amount * old(credit_line).interest_rate_bps * (now
                    - old(credit_line).last_accrual_ts);
                (interest - 1) * 315_360_000_000 < product <= interest * 315_360_000_000
            }
        },
        result is Err ==> *final(credit_line) == *old(credit_line),
        result == Err::<i128, _>(OverflowError::RateProduct) <==> {
            &&& old(credit_line).last_accrual_ts < now
            &&& !fits_i128(old(credit_line).utilized_amount * old(credit_line).interest_rate_bps)
        },
        result == Err::<i128, _>(OverflowError::ElapsedProduct) <==> {
            &&& fits_i128(old(credit_line).utilized_amount * old(credit_line).interest_rate_bps)
            &&& !fits_i128(interest_product(*old(credit_line), now))
        },
        result == Err::<i128, _>(OverflowError::AccruedInterest) <==> {
            &&& fits_i128(interest_product(*old(credit_line), now))
            &&& !fits_i128(
                old(credit_line).accrued_interest + interest_due(*old(credit_line), now),
            )
        },
{
    proof {
        law_accrual_exact(*credit_line, now);
    }
    let elapsed: u64 = now.saturating_sub(credit_line.last_accrual_ts);
    match try_prorate_interest(
        credit_line.utilized_amount,
        credit_line.interest_rate_bps,
        elapsed,
    ) {
        Err(error) => Err(error),
        Ok(interest) => match credit_line.accrued_interest.checked_add(interest) {
            None => Err(OverflowError::AccruedInterest),
            Some(total) => {
                credit_line.accrued_interest = total;
                credit_line.last_accrual_ts = now;
                Ok(interest)
            },
        },
    }
}

/// What is due, when it can be recorded, and what is then recorded. The interest is the
/// debt times the rate times the seconds since the last accrual, measured in units of ten
/// thousand basis points times the seconds of 365 days and cut off toward zero. It can be
/// recorded exactly if that product and the new total are both `i128` values, and the
/// total then grows by it.
pub proof fn law_accrual_exact(line: CreditLineData, now: u64)
    ensures
        ({
            let due = interest_due(line, now);
            let product = line.utilized_amount * line.interest_rate_bps * (now
                - line.last_accrual_ts);
            &&& now <= line.last_accrual_ts ==> due == 0 && interest_product(line, now) == 0
            &&& now >= line.last_accrual_ts ==> interest_product(line, now) == product
            &&& now >= line.last_accrual_ts && line.utilized_amount >= 0 ==> due * 315_360_000_000 <= product
                < (due + 1) * 315_360_000_000
            &&& now >= line.last_accrual_ts && line.utilized_amount <= 0 ==> (due - 1) * 315_360_000_000
                < product <= due * 315_360_000_000
            &&& accrual_fits(line, now) <==> {
                &&& now > line.last_accrual_ts ==> i128::MIN <= product <= i128::MAX
                &&& i128::MIN <= line.accrued_interest + due <= i128::MAX
            }
            &&& accrual_fits(line, now) ==> {
                &&& accrued(line, now).accrued_interest == line.accrued_interest + due
                &&& accrued(line, now).last_accrual_ts == now
            }
        }),
{
    let principal = line.utilized_amount as int;
    let rate = line.interest_rate_bps as int;
    law_prorate_nothing_due(principal, rate, 0);
    law_prorate_exact(principal, rate, elapsed_secs(line.last_accrual_ts, now));
}

/// The elapsed time leads from the earlier moment to the later one, and no time has
/// elapsed where the clock stands still or runs back.
pub proof fn law_elapsed_secs(since: u64, now: u64)
    ensures
        since <= now ==> since + elapsed_secs(since, now) == now,
        now <= since ==> elapsed_secs(since, now) == 0,
{
}

/// Accrual touches the accrued interest and its timestamp alone, so that valid terms
/// stay valid.
pub proof fn law_accrual_keeps_terms(line: CreditLineData, now: u64)
    ensures
        accrued(line, now).credit_limit == line.credit_limit,
        accrued(line, now).utilized_amount == line.utilized_amount,
        accrued(line, now).interest_rate_bps == line.interest_rate_bps,
        accrued(line, now).risk_score == line.risk_score,
        accrued(line, now).last_rate_update_ts == line.last_rate_update_ts,
        accrued(line, now).last_accrual_ts == now,
        line.terms_valid() ==> accrued(line, now).terms_valid(),
{
}

/// No interest is due when no time has passed, when the clock stands before the last
/// accrual, on an undrawn line, or at a zero rate.
pub proof fn law_accrual_nothing_due(line: CreditLineData, now: u64)
    requires
        now <= line.last_accrual_ts || line.utilized_amount == 0 || line.interest_rate_bps == 0,
    ensures
        accrual_fits(line, now),
        interest_due(line, now) == 0,
        accrued(line, now) == (CreditLineData { last_accrual_ts: now, ..line }),
{
    law_prorate_nothing_due(
        line.utilized_amount as int,
        line.interest_rate_bps as int,
        elapsed_secs(line.last_accrual_ts, now),
    );
}

/// Accruing a second time at the same moment charges nothing and changes nothing.
pub proof fn law_accrual_once_per_moment(line: CreditLineData, now: u64)
    requires
        accrual_fits(line, now),
    ensures
        accrual_fits(accrued(line, now), now),
        interest_due(accrued(line, now), now) == 0,
        accrued(accrued(line, now), now) == accrued(line, now),
{
    law_accrual_nothing_due(accrued(line, now), now);
}

/// On a debt, accrual never lowers the accrued interest.
pub proof fn law_accrual_never_lowers_interest(line: CreditLineData, now: u64)
    requires
        0 <= line.utilized_amount,
        accrual_fits(line, now),
    ensures
        0 <= interest_due(line, now),
        line.accrued_interest <= accrued(line, now).accrued_interest,
{
    let principal = line.utilized_amount as int;
    let rate = line.interest_rate_bps as int;
    law_prorate_nothing_due(principal, rate, 0);
    law_prorate_monotone_in_time(principal, rate, 0, elapsed_secs(line.last_accrual_ts, now));
}

/// Accruing at an intermediate moment as well never charges a debt more than accruing
/// once at the end, and charges at most one unit less: truncated fractions are not
/// carried forward.
pub proof fn law_accrual_in_steps(line: CreditLineData, midway: u64, now: u64)
    requires
        line.last_accrual_ts <= midway <= now,
        0 <= line.utilized_amount,
        accrual_fits(line, now),
    ensures
        ({
            let at_once = accrued(line, now);
            let in_steps = accrued(accrued(line, midway), now);
            &&& accrual_fits(line, midway)
            &&& accrual_fits(accrued(line, midway), now)
            &&& in_steps.accrued_interest <= at_once.accrued_interest
            &&& at_once.accrued_interest <= in_steps.accrued_interest + 1
            &&& in_steps.last_accrual_ts == at_once.last_accrual_ts
        }),
{
    let principal = line.utilized_amount as int;
    let rate = line.interest_rate_bps as int;
    let first = elapsed_secs(line.last_accrual_ts, midway);
    let second = elapsed_secs(midway, now);
    law_prorate_split_period(principal, rate, first, second);
    law_prorate_nothing_due(principal, rate, 0);
    law_prorate_monotone_in_time(principal, rate, 0, first);
    law_prorate_monotone_in_time(principal, rate, 0, second);
    let charge = principal * rate;
    assert(0 <= charge * first <= charge * (first + second) && 0 <= charge * second <= charge * (
    first + second)) by (nonlinear_arith)
        requires
            charge == principal * rate,
            0 <= principal,
            0 <= rate,
            0 <= first,
            0 <= second,
    ;
}

} // verus!
