use vstd::prelude::*;
use crate::fixed::{abs, div_tz, div_toward_zero, lemma_div_tz_bound};

verus! {

/// Largest size of an exponent (in thousandths) that `exp_milli` accepts.
pub const MAX_EXPONENT: i64 = 4_000;

/// Working scale of the series: terms are held in units of 10^-12.
pub const SERIES_SCALE: i128 = 1_000_000_000_000;

/// Number of terms after the constant one.
pub const SERIES_TERMS: i64 = 24;

/// Term `k` of the Taylor series of `e^(x/1000)`, each term obtained from the
/// one before as `term * x / (1000 k)`, rounded toward zero.
pub open spec fn exp_term(x: int, k: nat) -> int
    decreases k,
{
    if k == 0 {
        SERIES_SCALE as int
    } else {
        div_tz(exp_term(x, (k - 1) as nat) * x, (k as int) * 1000)
    }
}

/// Sum of the terms `0 ..= k`.
pub open spec fn exp_sum(x: int, k: nat) -> int
    decreases k,
{
    if k == 0 {
        exp_term(x, 0)
    } else {
        exp_sum(x, (k - 1) as nat) + exp_term(x, k)
    }
}

/// `e^(x/1000)` in thousandths, by the Taylor series to the 24th power.
pub open spec fn exp_spec(x: int) -> int {
    div_tz(exp_sum(x, SERIES_TERMS as nat), 1_000_000_000)
}

/// A bound on the size of term `k` for exponents up to 4: the terms grow by
/// at most 4/k from one to the next, so they peak at 32/3 of the scale.
pub open spec fn term_bound(k: int) -> int {
    if k == 0 {
        SERIES_SCALE as int
    } else if k == 1 {
        4 * SERIES_SCALE
    } else if k == 2 {
        8 * SERIES_SCALE
    } else {
        10_666_666_666_667
    }
}

/// Largest size of `exp_milli`'s result: a loose bound that keeps the
/// callers' arithmetic in range.
pub const MAX_EXP_RESULT: i64 = 275_000;

proof fn lemma_term_step(t: int, x: int, k: int)
    requires
        abs(t) <= term_bound(k - 1),
        abs(x) <= MAX_EXPONENT,
        k >= 1,
    ensures
        abs(div_tz(t * x, k * 1000)) <= term_bound(k),
{
    let b = term_bound(k - 1);
    assert(abs(t * x) <= b * 4000) by (nonlinear_arith)
        requires
            abs(t) <= b,
            abs(x) <= 4000,
            b >= 0,
    ;
    let m = term_bound(k);
    assert(b * 4000 <= m * (k * 1000)) by (nonlinear_arith)
        requires
            k >= 1,
            k == 1 ==> b == 1_000_000_000_000 && m == 4_000_000_000_000,
            k == 2 ==> b == 4_000_000_000_000 && m == 8_000_000_000_000,
            k == 3 ==> b == 8_000_000_000_000 && m == 10_666_666_666_667,
            k >= 4 ==> b == 10_666_666_666_667 && m == 10_666_666_666_667,
    ;
    lemma_div_tz_bound(t * x, k * 1000, m);
}

/// `e^(x/1000)` in thousandths (see `exp_spec`), for exponents up to 4.
pub fn exp_milli(x: i64) -> (r: i64)
    requires
        abs(x as int) <= MAX_EXPONENT,
    ensures
        r == exp_spec(x as int),
        abs(r as int) <= MAX_EXP_RESULT,
{
    let xx = x as i128;
    let mut term: i128 = SERIES_SCALE;
    let mut sum: i128 = SERIES_SCALE;
    let mut k: i64 = 1;
    while k <= SERIES_TERMS
        invariant
            1 <= k <= SERIES_TERMS + 1,
            abs(x as int) <= MAX_EXPONENT,
            xx == x,
            term == exp_term(x as int, (k - 1) as nat),
            sum == exp_sum(x as int, (k - 1) as nat),
            abs(term as int) <= term_bound(k - 1),
            abs(sum as int) <= k * 11_000_000_000_000,
        decreases SERIES_TERMS + 1 - k,
    {
        proof {
            lemma_term_step(term as int, x as int, k as int);
            assert(abs(term * xx) <= 11_000_000_000_000 * 4000) by (nonlinear_arith)
                requires
                    abs(term as int) <= 11_000_000_000_000,
                    abs(xx as int) <= 4000,
            ;
        }
        term = div_toward_zero(term * xx, (k as i128) * 1000);
        sum = sum + term;
        k = k + 1;
    }
    proof {
        lemma_div_tz_bound(sum as int, 1_000_000_000, 275_000);
    }
    div_toward_zero(sum, 1_000_000_000) as i64
}

} // verus!
