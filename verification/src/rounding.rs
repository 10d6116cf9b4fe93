//! Rounding of exact numbers to the 53 significant bits of a binary64 number.
//!
//! Every finite binary64 number is a whole number of *units*, one unit being the smallest positive
//! number of the format. Exact results are therefore ratios of natural numbers of units, and
//! `nearest` says which number of the format stands for such a ratio.
use vstd::arithmetic::div_mod::*;
use vstd::arithmetic::mul::*;
use vstd::arithmetic::power2::*;
use vstd::prelude::*;

verus! {

/// How many low bits of `x` do not fit into 53 significant bits.
pub open spec fn surplus_bits(x: nat) -> nat
    decreases x,
{
    if x < 0x20_0000_0000_0000 {
        0
    } else {
        1 + surplus_bits(x / 2)
    }
}

/// The quotient `h` with remainder `r` of a division by `q`, to the nearest whole number; a tie
/// goes to the even one.
pub open spec fn half_even(h: nat, r: nat, q: nat) -> nat {
    if 2 * r > q || (2 * r == q && h % 2 == 1) {
        h + 1
    } else {
        h
    }
}

/// The ratio `n / d` to the nearest multiple of the last of its 53 significant bits, or to the
/// nearest whole number where 53 bits hold more than that.
pub open spec fn nearest(n: nat, d: nat) -> nat
    recommends
        d > 0,
{
    let k = surplus_bits(n / d);
    let q = d * pow2(k);
    half_even(n / q, n % q, q) * pow2(k)
}

/// The magnitude that stands for infinity: the first one that is too large for the format.
pub open spec fn infinite_units() -> nat {
    pow2(2098)
}

/// `nearest`, where what is too large for the format becomes infinity.
pub open spec fn rounded_magnitude(n: nat, d: nat) -> nat {
    if nearest(n, d) < infinite_units() {
        nearest(n, d)
    } else {
        infinite_units()
    }
}

/// The number of units that stands for the exact ratio `x / d`.
pub open spec fn rounded(x: int, d: nat) -> int {
    if x < 0 {
        -(rounded_magnitude((-x) as nat, d) as int)
    } else {
        rounded_magnitude(x as nat, d) as int
    }
}

pub(crate) proof fn lemma_surplus_bits(x: nat, k: nat)
    requires
        k == 0 || x >= 0x10_0000_0000_0000 * pow2(k),
        x < 0x20_0000_0000_0000 * pow2(k),
    ensures
        surplus_bits(x) == k,
    decreases k,
{
    lemma2_to64();
    if k > 0 {
        lemma_pow2_unfold(k);
        lemma_pow2_pos((k - 1) as nat);
        lemma_surplus_bits(x / 2, (k - 1) as nat);
    }
}

/// The rounding of `n / d` from a quotient `h` of at most 53 bits, of 53 bits if `k` bits were cut
/// off, and the remainder `r`.
pub(crate) proof fn lemma_nearest(n: nat, d: nat, k: nat, h: nat, r: nat)
    requires
        d > 0,
        n == h * (d * pow2(k)) + r,
        r < d * pow2(k),
        h < 0x20_0000_0000_0000,
        k == 0 || h >= 0x10_0000_0000_0000,
    ensures
        nearest(n, d) == half_even(h, r, d * pow2(k)) * pow2(k),
{
    let p = pow2(k);
    lemma_pow2_pos(k);
    let q = d * p;
    assert(q > 0) by (nonlinear_arith)
        requires
            d > 0,
            p > 0,
            q == d * p,
    ;
    lemma_fundamental_div_mod_converse(n as int, q as int, h as int, r as int);
    let x = n / d;
    // n / d lies between h * p and (h + 1) * p.
    assert(n == (h * p) * d + r) by (nonlinear_arith)
        requires
            n == h * (d * p) + r,
    ;
    let y = r / d;
    assert(r == y * d + r % d) by {
        lemma_fundamental_div_mod(r as int, d as int);
        lemma_mul_is_commutative(y as int, d as int);
    }
    assert(y < p) by (nonlinear_arith)
        requires
            r == y * d + r % d,
            r < d * p,
            d > 0,
    ;
    assert(n == (h * p + y) * d + r % d) by (nonlinear_arith)
        requires
            n == (h * p) * d + r,
            r == y * d + r % d,
    ;
    lemma_fundamental_div_mod_converse(n as int, d as int, (h * p + y) as int, (r % d) as int);
    assert(x == h * p + y);
    assert(h * p + y < 0x20_0000_0000_0000 * p) by (nonlinear_arith)
        requires
            y < p,
            h < 0x20_0000_0000_0000,
    ;
    if k > 0 {
        assert(h * p >= 0x10_0000_0000_0000 * p) by (nonlinear_arith)
            requires
                h >= 0x10_0000_0000_0000,
                p > 0,
        ;
    }
    lemma_surplus_bits(x, k);
}

/// Scaling the remainder and the divisor alike leaves the rounded quotient as it is.
pub(crate) proof fn lemma_half_even_scaled(h: nat, r: nat, q: nat, c: nat)
    requires
        c > 0,
    ensures
        half_even(h, r * c, q * c) == half_even(h, r, q),
{
    assert(2 * (r * c) > q * c <==> 2 * r > q) by (nonlinear_arith)
        requires
            c > 0,
    ;
    assert(2 * (r * c) == q * c <==> 2 * r == q) by (nonlinear_arith)
        requires
            c > 0,
    ;
}

/// What has at most 53 significant bits is not changed by rounding.
pub(crate) proof fn lemma_nearest_exact(h: nat, k: nat)
    requires
        h < 0x20_0000_0000_0000,
        k == 0 || h >= 0x10_0000_0000_0000,
    ensures
        nearest(h * pow2(k), 1) == h * pow2(k),
{
    lemma_pow2_pos(k);
    lemma_nearest(h * pow2(k), 1, k, h, 0);
}

/// Adding less than half of the last place leaves a number of 53 significant bits as it is.
pub(crate) proof fn lemma_nearest_above(m: nat, e: nat, delta: nat)
    requires
        0x10_0000_0000_0000 <= m < 0x20_0000_0000_0000,
        2 * delta < pow2(e),
    ensures
        nearest(m * pow2(e) + delta, 1) == m * pow2(e),
{
    lemma_pow2_pos(e);
    lemma_nearest(m * pow2(e) + delta, 1, e, m, delta);
}

/// Taking away less than a quarter of the last place leaves a number of 53 significant bits as it
/// is.
pub(crate) proof fn lemma_nearest_below(m: nat, e: nat, delta: nat)
    requires
        0x10_0000_0000_0000 <= m < 0x20_0000_0000_0000,
        e > 0,
        4 * delta < pow2(e),
    ensures
        delta <= m * pow2(e),
        nearest((m * pow2(e) - delta) as nat, 1) == m * pow2(e),
{
    let p = pow2(e);
    lemma_pow2_pos(e);
    lemma_pow2_unfold(e);
    let half = pow2((e - 1) as nat);
    assert(m * p >= p) by (nonlinear_arith)
        requires
            m >= 1,
    ;
    let n = (m * p - delta) as nat;
    if delta == 0 {
        lemma_nearest_exact(m, e);
    } else if m > 0x10_0000_0000_0000 {
        assert(n == (m - 1) * p + (p - delta)) by (nonlinear_arith)
            requires
                n == m * p - delta,
        ;
        lemma_nearest(n, 1, e, (m - 1) as nat, (p - delta) as nat);
    } else {
        assert(n == 0x1f_ffff_ffff_ffff * half + (half - delta)) by (nonlinear_arith)
            requires
                n == m * p - delta,
                m == 0x10_0000_0000_0000,
                p == 2 * half,
        ;
        lemma_nearest(n, 1, (e - 1) as nat, 0x1f_ffff_ffff_ffff, (half - delta) as nat);
        assert(0x20_0000_0000_0000 * half == m * p) by (nonlinear_arith)
            requires
                m == 0x10_0000_0000_0000,
                p == 2 * half,
        ;
    }
}

pub(crate) proof fn lemma_surplus_bits_bound(x: nat)
    ensures
        surplus_bits(x) > 0 ==> x >= pow2(surplus_bits(x)),
    decreases x,
{
    lemma2_to64();
    if x >= 0x20_0000_0000_0000 {
        lemma_surplus_bits_bound(x / 2);
        lemma_pow2_unfold(surplus_bits(x));
    }
}

/// Rounding at most doubles a whole number, and at most halves it.
pub(crate) proof fn lemma_nearest_bound(n: nat)
    ensures
        nearest(n, 1) <= 2 * n,
        n <= 2 * nearest(n, 1),
{
    let k = surplus_bits(n);
    let q = pow2(k);
    lemma2_to64();
    lemma_pow2_pos(k);
    lemma_surplus_bits_bound(n);
    assert(n / 1 == n);
    let h = n / q;
    let r = n % q;
    lemma_fundamental_div_mod(n as int, q as int);
    if k == 0 {
        assert(h * q == n) by (nonlinear_arith)
            requires
                n == q * h + r,
                r == 0,
        ;
    } else {
        assert(h >= 1) by (nonlinear_arith)
            requires
                n == q * h + r,
                0 <= r < q,
                n >= q,
        ;
        assert(q <= h * q <= n && (h + 1) * q <= 2 * n && n <= 2 * (h * q)) by (nonlinear_arith)
            requires
                n == q * h + r,
                0 <= r < q,
                h >= 1,
        ;
        assert(h * q <= (h + 1) * q) by (nonlinear_arith);
    }
}

/// What is left of `x` without its surplus bits has at most 53 bits, and 53 of them if there were any.
proof fn lemma_surplus_range(x: nat)
    ensures
        x < 0x20_0000_0000_0000 * pow2(surplus_bits(x)),
        surplus_bits(x) == 0 || x >= 0x10_0000_0000_0000 * pow2(surplus_bits(x)),
    decreases x,
{
    lemma2_to64();
    if x >= 0x20_0000_0000_0000 {
        lemma_surplus_range(x / 2);
        lemma_pow2_unfold(surplus_bits(x));
    }
}

/// A larger number has no fewer surplus bits.
proof fn lemma_surplus_grows(a: nat, b: nat)
    requires
        a <= b,
    ensures
        surplus_bits(a) <= surplus_bits(b),
    decreases a,
{
    if a >= 0x20_0000_0000_0000 {
        lemma_surplus_grows(a / 2, b / 2);
    }
}

/// Rounding keeps the order of numbers.
pub proof fn law_nearest_keeps_order(a: nat, b: nat)
    requires
        a <= b,
    ensures
        nearest(a, 1) <= nearest(b, 1),
{
    let ka = surplus_bits(a);
    let kb = surplus_bits(b);
    let qa = pow2(ka);
    let qb = pow2(kb);
    assert(a / 1 == a && b / 1 == b);
    lemma_surplus_grows(a, b);
    lemma_surplus_range(a);
    lemma_surplus_range(b);
    lemma_pow2_pos(ka);
    lemma_pow2_pos(kb);
    lemma_fundamental_div_mod(a as int, qa as int);
    lemma_fundamental_div_mod(b as int, qb as int);
    let ha = a / qa;
    let hb = b / qb;
    let ra = a % qa;
    let rb = b % qb;
    let ga = half_even(ha, ra, qa);
    let gb = half_even(hb, rb, qb);
    if ka == kb {
        assert(ha <= hb) by (nonlinear_arith)
            requires
                qa * ha + ra == a,
                qa * hb + rb == b,
                a <= b,
                0 <= ra < qa,
                0 <= rb < qa,
        ;
        if ha == hb {
            assert(ra <= rb);
        }
        assert(ga * qa <= gb * qa) by (nonlinear_arith)
            requires
                ga <= gb,
        ;
    } else {
        assert(ha < 0x20_0000_0000_0000) by (nonlinear_arith)
            requires
                qa * ha + ra == a,
                a < 0x20_0000_0000_0000 * qa,
                0 <= ra,
                qa > 0,
        ;
        assert(hb >= 0x10_0000_0000_0000) by (nonlinear_arith)
            requires
                qb * hb + rb == b,
                b >= 0x10_0000_0000_0000 * qb,
                rb < qb,
                qb > 0,
        ;
        lemma_pow2_unfold(ka + 1);
        if ka + 1 < kb {
            lemma_pow2_strictly_increases(ka + 1, kb);
        }
        assert(ga * qa <= gb * qb) by (nonlinear_arith)
            requires
                ga <= 0x20_0000_0000_0000,
                gb >= 0x10_0000_0000_0000,
                2 * qa <= qb,
                qa > 0,
        ;
    }
}

/// Rounding stays close: a ratio below `2^53` is off by at most one half, a larger one by at most one
/// part in `2^53`.
pub proof fn law_nearest_is_close(n: nat, d: nat)
    requires
        d > 0,
    ensures
        n < 0x20_0000_0000_0000 * d ==> -(d as int) <= 2 * (nearest(n, d) * d - n) <= d,
        n >= 0x20_0000_0000_0000 * d ==> -(n as int) <= 0x20_0000_0000_0000 * (nearest(n, d) * d
            - n) <= n,
{
    let x = n / d;
    let k = surplus_bits(x);
    let p = pow2(k);
    let q = d * p;
    lemma2_to64();
    lemma_pow2_pos(k);
    lemma_surplus_range(x);
    assert(q > 0) by (nonlinear_arith)
        requires
            d > 0,
            p > 0,
            q == d * p,
    ;
    lemma_fundamental_div_mod(n as int, d as int);
    lemma_fundamental_div_mod(n as int, q as int);
    let h = n / q;
    let r = n % q;
    let g = half_even(h, r, q);
    assert(nearest(n, d) * d == g * q) by (nonlinear_arith)
        requires
            nearest(n, d) == g * p,
            q == d * p,
    ;
    assert(-(q as int) <= 2 * (g * q - n) <= q) by (nonlinear_arith)
        requires
            n == q * h + r,
            0 <= r < q,
            (g == h && 2 * r <= q) || (g == h + 1 && 2 * r >= q),
    ;
    if n < 0x20_0000_0000_0000 * d {
        assert(x < 0x20_0000_0000_0000) by (nonlinear_arith)
            requires
                n == d * x + n % d,
                n % d >= 0,
                n < 0x20_0000_0000_0000 * d,
                d > 0,
        ;
        assert(q == d) by (nonlinear_arith)
            requires
                q == d * p,
                p == 1,
        ;
    } else {
        assert(x >= 0x20_0000_0000_0000) by (nonlinear_arith)
            requires
                n == d * x + n % d,
                n % d < d,
                n >= 0x20_0000_0000_0000 * d,
                d > 0,
        ;
        assert(n >= 0x10_0000_0000_0000 * q) by (nonlinear_arith)
            requires
                n == d * x + n % d,
                n % d >= 0,
                x >= 0x10_0000_0000_0000 * p,
                q == d * p,
        ;
    }
}

/// A number of at most 53 bits, shifted, is not changed by rounding.
pub proof fn law_nearest_keeps_exact(m: nat, s: nat)
    requires
        m < 0x20_0000_0000_0000,
    ensures
        nearest(m * pow2(s), 1) == m * pow2(s),
    decreases s,
{
    if s == 0 || m >= 0x10_0000_0000_0000 {
        lemma_nearest_exact(m, s);
    } else {
        lemma_pow2_unfold(s);
        let p = pow2((s - 1) as nat);
        assert(m * (2 * p) == (2 * m) * p) by (nonlinear_arith);
        law_nearest_keeps_exact(2 * m, (s - 1) as nat);
    }
}

} // verus!
