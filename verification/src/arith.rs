//! Facts about quotients rounded toward zero that the spinner's proofs use.

use vstd::prelude::*;
use crate::model::{capped_delta, sample_time, time_step, trunc_div, FRAME_CAP, PACE};

verus! {

/// What rounding toward zero means: the quotient times the divisor misses
/// the dividend by less than the divisor, and never overshoots it.
pub proof fn lemma_trunc_div_remainder(a: int, b: int)
    requires
        b != 0,
    ensures
        ({
            let r = a - trunc_div(a, b) * b;
            &&& a >= 0 ==> r >= 0
            &&& a <= 0 ==> r <= 0
            &&& b > 0 ==> -b < r < b
            &&& b < 0 ==> b < r < -b
        }),
{
    let m = if a >= 0 {
        a
    } else {
        -a
    };
    let d = if b > 0 {
        b
    } else {
        -b
    };
    let q = m / d;
    assert(0 <= m - q * d < d) by (nonlinear_arith)
        requires
            m >= 0,
            d > 0,
            q == m / d,
    ;
    let t = trunc_div(a, b);
    assert(t * b == q * d || t * b == -(q * d)) by (nonlinear_arith)
        requires
            t == q || t == -q,
            b == d || b == -d,
    ;
    assert((a >= 0) == (t * b == q * d) || q * d == 0) by (nonlinear_arith)
        requires
            (a >= 0) == (b > 0) ==> t == q,
            (a >= 0) != (b > 0) ==> t == -q,
            (b > 0) ==> b == d,
            !(b > 0) ==> b == -d,
            d > 0,
    ;
}

/// A quotient rounded toward zero lies between zero and its dividend.
pub proof fn lemma_trunc_div_within(a: int, b: int)
    requires
        b > 0,
    ensures
        a >= 0 ==> 0 <= trunc_div(a, b) <= a,
        a <= 0 ==> a <= trunc_div(a, b) <= 0,
{
    if a >= 0 {
        assert(0 <= a / b <= a) by (nonlinear_arith)
            requires
                a >= 0,
                b > 0,
        ;
    } else {
        let m = -a;
        assert(0 <= m / b <= m) by (nonlinear_arith)
            requires
                m >= 0,
                b > 0,
        ;
    }
}

/// Rounding toward zero keeps the order of the dividends.
pub proof fn lemma_trunc_div_monotonic(a: int, c: int, b: int)
    requires
        b > 0,
        a <= c,
    ensures
        trunc_div(a, b) <= trunc_div(c, b),
{
    lemma_trunc_div_within(a, b);
    lemma_trunc_div_within(c, b);
    if a >= 0 {
        assert(a / b <= c / b) by (nonlinear_arith)
            requires
                0 <= a <= c,
                b > 0,
        ;
    } else if c < 0 {
        let m = -a;
        let k = -c;
        assert(k / b <= m / b) by (nonlinear_arith)
            requires
                0 <= k <= m,
                b > 0,
        ;
    }
}

/// A multiple of the divisor divides without a remainder.
pub proof fn lemma_trunc_div_exact(q: int, b: int)
    requires
        b > 0,
    ensures
        trunc_div(q * b, b) == q,
{
    if q >= 0 {
        assert(q * b >= 0 && (q * b) / b == q) by (nonlinear_arith)
            requires
                q >= 0,
                b > 0,
        ;
    } else {
        let m = -q;
        assert(q * b < 0 && -(q * b) == m * b && (m * b) / b == m) by (nonlinear_arith)
            requires
                m > 0,
                m == -q,
                b > 0,
        ;
    }
}

/// The samples of a step start at its beginning, end at its end and stay
/// between the two.
pub proof fn lemma_sample_time_within(from: int, to: int, n: int, i: int)
    requires
        0 <= i <= n,
        0 < n,
    ensures
        from <= to ==> from <= sample_time(from, to, n, i) <= to,
        to <= from ==> to <= sample_time(from, to, n, i) <= from,
        i == 0 ==> sample_time(from, to, n, i) == from,
        i == n ==> sample_time(from, to, n, i) == to,
{
    let d = to - from;
    lemma_trunc_div_exact(0, n);
    lemma_trunc_div_exact(d, n);
    if d >= 0 {
        assert(0 * n <= d * i <= d * n) by (nonlinear_arith)
            requires
                d >= 0,
                0 <= i <= n,
        ;
        lemma_trunc_div_monotonic(0 * n, d * i, n);
        lemma_trunc_div_monotonic(d * i, d * n, n);
    } else {
        assert(d * n <= d * i <= 0 * n) by (nonlinear_arith)
            requires
                d < 0,
                0 <= i <= n,
        ;
        lemma_trunc_div_monotonic(d * n, d * i, n);
        lemma_trunc_div_monotonic(d * i, 0 * n, n);
    }
    if i == 0 {
        assert(d * i == 0 * n) by (nonlinear_arith)
            requires
                i == 0,
        ;
    }
}

/// While the clock runs forward, a later sample never lies before an
/// earlier one.
pub proof fn lemma_sample_time_ordered(from: int, to: int, n: int, i: int, j: int)
    requires
        0 <= i <= j <= n,
        0 < n,
        from <= to,
    ensures
        sample_time(from, to, n, i) <= sample_time(from, to, n, j),
{
    let d = to - from;
    assert(d * i <= d * j) by (nonlinear_arith)
        requires
            d >= 0,
            i <= j,
    ;
    lemma_trunc_div_monotonic(d * i, d * j, n);
}

/// With a frequency ratio above zero, a frame whose delta and time scale are
/// not negative never turns the clock back; with one below zero it never
/// turns it forward.
pub proof fn lemma_time_step_sign(frame_delta: int, time_scale: int, frequency_ratio: int)
    requires
        0 <= frame_delta,
        0 <= time_scale,
    ensures
        frequency_ratio >= 0 ==> time_step(frame_delta, time_scale, frequency_ratio) >= 0,
        frequency_ratio <= 0 ==> time_step(frame_delta, time_scale, frequency_ratio) <= 0,
{
    let c = capped_delta(frame_delta);
    let a = c * time_scale * PACE;
    assert(a >= 0) by (nonlinear_arith)
        requires
            c >= 0,
            time_scale >= 0,
            a == c * time_scale * PACE,
            PACE == 5,
    ;
    if frequency_ratio > 0 {
        lemma_trunc_div_within(a, FRAME_CAP * frequency_ratio);
    } else if frequency_ratio < 0 {
        lemma_trunc_div_within(a, -(FRAME_CAP * frequency_ratio));
    }
}

} // verus!
