use vstd::prelude::*;

verus! {

/// Integer units in one SI unit.
pub const SCALE: i64 = 1000;

/// Quotient rounded toward zero, as Rust's integer division rounds.
pub open spec fn div_tz(n: int, d: int) -> int {
    if n >= 0 {
        n / d
    } else {
        -((-n) / d)
    }
}

/// Fixed-point product of two values held in thousandths.
pub open spec fn mul_fx(a: int, b: int) -> int {
    div_tz(a * b, SCALE as int)
}

/// `r` is the integer square root of `n`, rounded down.
pub open spec fn is_floor_sqrt(n: int, r: int) -> bool {
    0 <= r && r * r <= n && n < (r + 1) * (r + 1)
}

/// The integer square root of a non-negative `n`, rounded down.
pub open spec fn sqrt_floor(n: int) -> int {
    choose|r: int| is_floor_sqrt(n, r)
}

pub open spec fn abs(a: int) -> int {
    if a < 0 {
        -a
    } else {
        a
    }
}

/// A rounded-toward-zero quotient is no larger in size than the dividend
/// divided exactly.
pub proof fn lemma_div_tz_bound(n: int, d: int, m: int)
    requires
        d > 0,
        abs(n) <= m * d,
    ensures
        abs(div_tz(n, d)) <= m,
        n >= 0 ==> div_tz(n, d) >= 0,
        n <= 0 ==> div_tz(n, d) <= 0,
{
    if n >= 0 {
        assert(n / d <= m) by (nonlinear_arith)
            requires
                d > 0,
                n >= 0,
                n <= m * d,
        ;
        assert(n / d >= 0) by (nonlinear_arith)
            requires
                d > 0,
                n >= 0,
        ;
    } else {
        assert((-n) / d <= m) by (nonlinear_arith)
            requires
                d > 0,
                -n >= 0,
                -n <= m * d,
        ;
        assert((-n) / d >= 0) by (nonlinear_arith)
            requires
                d > 0,
                -n >= 0,
        ;
    }
}

/// The floor square root is unique.
pub proof fn lemma_floor_sqrt_unique(n: int, r: int)
    requires
        is_floor_sqrt(n, r),
    ensures
        sqrt_floor(n) == r,
{
    let s = sqrt_floor(n);
    assert(is_floor_sqrt(n, s));
    if s < r {
        assert((s + 1) * (s + 1) <= r * r) by (nonlinear_arith)
            requires
                0 <= s,
                s + 1 <= r,
        ;
    } else if r < s {
        assert((r + 1) * (r + 1) <= s * s) by (nonlinear_arith)
            requires
                0 <= r,
                r + 1 <= s,
        ;
    }
}

/// A component of a vector is bounded by the floor square root of any sum of
/// squares that contains it.
pub proof fn lemma_component_le_sqrt(a: int, rest: int, r: int)
    requires
        rest >= 0,
        is_floor_sqrt(a * a + rest, r),
    ensures
        abs(a) <= r,
{
    if abs(a) > r {
        assert((r + 1) * (r + 1) <= abs(a) * abs(a)) by (nonlinear_arith)
            requires
                0 <= r,
                r + 1 <= abs(a),
        ;
        assert(abs(a) * abs(a) == a * a) by (nonlinear_arith);
    }
}

/// Quotient of `n` by a positive `d`, rounded toward zero.
pub fn div_toward_zero(n: i128, d: i128) -> (r: i128)
    requires
        d > 0,
        n > i128::MIN,
    ensures
        r == div_tz(n as int, d as int),
{
    if n >= 0 {
        n / d
    } else {
        let m: i128 = -n;
        -(m / d)
    }
}

/// Integer square root, rounded down.
pub fn floor_sqrt(n: u128) -> (r: u64)
    requires
        n < 0x4000_0000_0000_0000_0000_0000_0000_0000u128,
    ensures
        is_floor_sqrt(n as int, r as int),
        r < 0x8000_0000_0000_0000u64,
{
    let mut lo: u64 = 0;
    let mut hi: u64 = 0x8000_0000_0000_0000u64;
    assert(n < (hi as int) * (hi as int));
    while lo + 1 < hi
        invariant
            lo < hi,
            hi <= 0x8000_0000_0000_0000u64,
            (lo as int) * (lo as int) <= n,
            n < (hi as int) * (hi as int),
        decreases hi - lo,
    {
        let mid: u64 = lo + (hi - lo) / 2;
        assert((mid as int) * (mid as int) <= 0x4000_0000_0000_0000_0000_0000_0000_0000) by (nonlinear_arith)
            requires
                0 <= mid < 0x8000_0000_0000_0000,
        ;
        if (mid as u128) * (mid as u128) <= n {
            lo = mid;
        } else {
            hi = mid;
        }
    }
    lo
}

} // verus!
