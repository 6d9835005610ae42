//! Integer division that truncates toward zero, and what holds of it.

use vstd::arithmetic::div_mod::*;
use vstd::prelude::*;

verus! {

/// `n` is representable as an `i128`.
pub open spec fn fits_i128(n: int) -> bool {
    i128::MIN <= n <= i128::MAX
}

/// The absolute value of `n`.
pub open spec fn magnitude(n: int) -> int {
    if n < 0 {
        -n
    } else {
        n
    }
}

/// The quotient of `n` by `d`, truncated toward zero: the quotient of the magnitude of `n`,
/// with the sign of `n` put back.
pub open spec fn trunc_div(n: int, d: int) -> int
    recommends
        d != 0,
{
    if n >= 0 {
        n / d
    } else {
        -((-n) / d)
    }
}

/// `q` is the smallest integer that is not below the fraction `n / d`.
pub open spec fn is_ceiling(q: int, n: int, d: int) -> bool
    recommends
        d > 0,
{
    (q - 1) * d < n <= q * d
}

/// Every `i128` is in the range that results are held to.
pub proof fn law_every_i128_fits(x: i128)
    ensures
        fits_i128(x as int),
{
}

/// Whatever is in that range is the value of an `i128`.
pub proof fn law_fitting_is_representable(n: int)
    requires
        fits_i128(n),
    ensures
        (n as i128) as int == n,
{
}

/// A magnitude is the number or its negation, and never negative.
pub proof fn law_magnitude(n: int)
    ensures
        0 <= magnitude(n),
        magnitude(n) == n || magnitude(n) == 0 - n,
{
}

/// Truncation drops a remainder that is smaller than the divisor and has the sign of
/// the dividend: the quotient is never farther from zero than the exact fraction, and
/// never a whole unit nearer to it.
pub proof fn law_trunc_div_remainder(n: int, d: int)
    requires
        d != 0,
    ensures
        n >= 0 && d > 0 ==> 0 <= n - trunc_div(n, d) * d < d,
        n >= 0 && d < 0 ==> 0 <= n - trunc_div(n, d) * d < -d,
        n <= 0 && d > 0 ==> -d < n - trunc_div(n, d) * d <= 0,
        n <= 0 && d < 0 ==> d < n - trunc_div(n, d) * d <= 0,
{
    let q = magnitude(n) / d;
    let t = trunc_div(n, d);
    lemma_fundamental_div_mod(magnitude(n), d);
    lemma_div_of0(d);
    assert(t * d == if n < 0 { -(d * q) } else { d * q }) by (nonlinear_arith)
        requires
            t == if n < 0 { -q } else { q },
    ;
}

/// Only the truncated quotient leaves a remainder that is smaller than the divisor and
/// has the sign of the dividend.
pub proof fn law_trunc_div_unique(n: int, d: int, q: int)
    requires
        d != 0,
        n >= 0 ==> 0 <= n - q * d < magnitude(d),
        n <= 0 ==> -magnitude(d) < n - q * d <= 0,
    ensures
        q == trunc_div(n, d),
{
    law_trunc_div_remainder(n, d);
    let t = trunc_div(n, d);
    let k = magnitude(d);
    assert(q == t) by (nonlinear_arith)
        requires
            -k < q * d - t * d < k,
            k == if d < 0 { -d } else { d },
            k > 0,
    ;
}

/// For a quotient that is not negative, truncation is rounding down.
pub proof fn law_trunc_div_is_floor(n: int, d: int)
    requires
        n >= 0,
        d > 0,
    ensures
        trunc_div(n, d) == n / d,
        trunc_div(n, d) * d <= n < (trunc_div(n, d) + 1) * d,
{
    law_trunc_div_remainder(n, d);
    let t = trunc_div(n, d);
    assert((t + 1) * d == t * d + d) by (nonlinear_arith);
}

/// Negating the dividend, or the divisor, negates the quotient.
pub proof fn law_trunc_div_negation(n: int, d: int)
    requires
        d != 0,
    ensures
        trunc_div(-n, d) == -trunc_div(n, d),
        trunc_div(n, -d) == -trunc_div(n, d),
{
    let t = trunc_div(n, d);
    law_trunc_div_remainder(n, d);
    assert(-t * d == -(t * d) && -t * -d == t * d) by (nonlinear_arith);
    law_trunc_div_unique(-n, d, -t);
    law_trunc_div_unique(n, -d, -t);
}

/// Dividing a multiple by its factor gives the other factor back.
pub proof fn law_trunc_div_of_multiple(value: int, factor: int)
    requires
        factor != 0,
    ensures
        trunc_div(value * factor, factor) == value,
{
    law_trunc_div_unique(value * factor, factor, value);
}

/// For a positive divisor, a larger dividend never gives a smaller quotient.
pub proof fn law_trunc_div_monotone(n1: int, n2: int, d: int)
    requires
        n1 <= n2,
        d > 0,
    ensures
        trunc_div(n1, d) <= trunc_div(n2, d),
{
    law_trunc_div_remainder(n1, d);
    law_trunc_div_remainder(n2, d);
    let q1 = trunc_div(n1, d);
    let q2 = trunc_div(n2, d);
    if n1 < 0 <= n2 {
        lemma_div_pos_is_pos(magnitude(n1), d);
        lemma_div_pos_is_pos(n2, d);
    } else {
        assert(q1 <= q2) by (nonlinear_arith)
            requires
                q1 * d < q2 * d + d,
                d > 0,
        ;
    }
}

/// Of two dividends with the same sign, the sum of the quotients is never farther from
/// zero than the quotient of the sum, and at most one unit nearer to it.
pub proof fn law_trunc_div_of_sum(n1: int, n2: int, d: int)
    requires
        0 < d,
        n1 >= 0 && n2 >= 0 || n1 <= 0 && n2 <= 0,
    ensures
        ({
            let apart = trunc_div(n1, d) + trunc_div(n2, d);
            let together = trunc_div(n1 + n2, d);
            &&& n1 >= 0 && n2 >= 0 ==> apart <= together <= apart + 1
            &&& n1 <= 0 && n2 <= 0 ==> apart - 1 <= together <= apart
        }),
{
    law_trunc_div_remainder(n1, d);
    law_trunc_div_remainder(n2, d);
    law_trunc_div_remainder(n1 + n2, d);
    let gap = trunc_div(n1 + n2, d) - trunc_div(n1, d) - trunc_div(n2, d);
    assert(gap * d == trunc_div(n1 + n2, d) * d - trunc_div(n1, d) * d - trunc_div(n2, d) * d)
        by (nonlinear_arith)
        requires
            gap == trunc_div(n1 + n2, d) - trunc_div(n1, d) - trunc_div(n2, d),
    ;
    assert(-d < gap * d ==> 0 <= gap) by (nonlinear_arith)
        requires
            0 < d,
    ;
    assert(gap * d < 2 * d ==> gap <= 1) by (nonlinear_arith)
        requires
            0 < d,
    ;
    assert(gap * d < d ==> gap <= 0) by (nonlinear_arith)
        requires
            0 < d,
    ;
    assert(-(2 * d) < gap * d ==> -1 <= gap) by (nonlinear_arith)
        requires
            0 < d,
    ;
}

/// Adding `d - 1` to the dividend turns truncation into rounding up. With a positive
/// divisor this is so exactly when the dividend is above `-d`, or leaves remainder 1.
pub proof fn law_ceiling_by_offset(n: int, d: int)
    requires
        d > 0,
    ensures
        is_ceiling(trunc_div(n + d - 1, d), n, d) <==> (n > -d || (n - 1) % d == 0),
{
    let s = n + d - 1;
    let q = trunc_div(s, d);
    law_trunc_div_remainder(s, d);
    assert((q - 1) * d == q * d - d) by (nonlinear_arith);
    if n > -d {
        // The sum is not negative, so `s - q * d` lies between 0 and `d - 1`.
    } else {
        // The sum is negative, so `s - q * d` lies between `1 - d` and 0.
        let e = s - q * d;
        assert(n - 1 == (q - 1) * d + e);
        if e == 0 {
            lemma_mod_multiples_basic(q - 1, d);
        } else {
            assert((q - 2) * d == (q - 1) * d - d) by (nonlinear_arith);
            lemma_fundamental_div_mod_converse(n - 1, d, q - 2, e + d);
        }
    }
}

} // verus!
