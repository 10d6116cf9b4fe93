//! Correctly rounded arithmetic on binary64 numbers.
use vstd::arithmetic::div_mod::*;
use vstd::arithmetic::mul::*;
use vstd::arithmetic::power2::*;
use vstd::prelude::*;

use crate::double;
use crate::double::{Double, EXPONENT_STEP, INFINITY_BITS, SIGN_BIT};
use crate::rounding;

verus! {

/// The first number that needs more than 53 bits.
pub const SIGNIFICAND_LIMIT: u64 = 0x20_0000_0000_0000;

/// The significand and the shift of a finite magnitude: `m * 2^e` units.
pub(crate) fn decode(magnitude: u64) -> (r: (u64, u32))
    requires
        magnitude < INFINITY_BITS,
    ensures
        r.0 < SIGNIFICAND_LIMIT,
        r.1 <= 2045,
        r.1 == 0 || r.0 >= EXPONENT_STEP,
        double::scaled(magnitude as nat) == r.0 as nat * pow2(r.1 as nat),
{
    proof {
        lemma2_to64();
    }
    let e = magnitude / EXPONENT_STEP;
    if e == 0 {
        assert(magnitude as nat * pow2(0) == magnitude) by (nonlinear_arith)
            requires
                pow2(0) == 1,
        ;
        (magnitude, 0)
    } else {
        (EXPONENT_STEP + magnitude % EXPONENT_STEP, (e - 1) as u32)
    }
}

/// The magnitude bits of `h * 2^e` units.
pub(crate) fn pack(h: u64, e: u32) -> (m: u64)
    requires
        h <= SIGNIFICAND_LIMIT,
        e <= 4000,
        e == 0 || h >= EXPONENT_STEP,
    ensures
        m <= INFINITY_BITS,
        double::scaled(m as nat) == if (h as nat * pow2(e as nat)) < rounding::infinite_units() {
            h as nat * pow2(e as nat)
        } else {
            rounding::infinite_units()
        },
{
    proof {
        lemma2_to64();
        lemma2_to64_rest();
    }
    let (g, f): (u64, u32) = if h == SIGNIFICAND_LIMIT {
        (EXPONENT_STEP, e + 1)
    } else {
        (h, e)
    };
    proof {
        if h == SIGNIFICAND_LIMIT {
            lemma_pow2_unfold(f as nat);
        }
        assert(g as nat * pow2(f as nat) == h as nat * pow2(e as nat)) by (nonlinear_arith)
            requires
                (g == h && f == e) || (h == 2 * g && pow2(f as nat) == 2 * pow2(e as nat)),
        ;
    }
    if g < EXPONENT_STEP {
        proof {
            lemma_pow2_strictly_increases(52, 2098);
        }
        g
    } else if f >= 2046 {
        proof {
            lemma_pow2_adds(52, 2046);
            if f > 2046 {
                lemma_pow2_strictly_increases(2046, f as nat);
            }
            assert(g as nat * pow2(f as nat) >= pow2(52) * pow2(2046)) by (nonlinear_arith)
                requires
                    g >= pow2(52),
                    pow2(f as nat) >= pow2(2046),
            ;
            assert(double::scaled(INFINITY_BITS as nat) == pow2(52) * pow2(2046));
        }
        INFINITY_BITS
    } else {
        let m: u64 = (f as u64 + 1) * EXPONENT_STEP + (g - EXPONENT_STEP);
        proof {
            assert(m / EXPONENT_STEP == f + 1);
            assert(m % EXPONENT_STEP == g - EXPONENT_STEP);
            lemma_pow2_adds(53, 2045);
            if f < 2045 {
                lemma_pow2_strictly_increases(f as nat, 2045);
            }
            lemma_pow2_pos(f as nat);
            assert(g as nat * pow2(f as nat) < pow2(53) * pow2(2045)) by (nonlinear_arith)
                requires
                    g < pow2(53),
                    0 < pow2(f as nat) <= pow2(2045),
            ;
        }
        m
    }
}

/// The magnitude bits that stand for `n * 2^s` units.
pub(crate) fn encode(n: u128, s: u32) -> (m: u64)
    requires
        s <= 3000,
    ensures
        m <= INFINITY_BITS,
        double::scaled(m as nat) == rounding::rounded_magnitude(n as nat * pow2(s as nat), 1),
{
    let mut h: u128 = n;
    let mut q: u128 = 1;
    let mut k: u32 = 0;
    proof {
        lemma2_to64();
        lemma2_to64_rest();
    }
    while h >= SIGNIFICAND_LIMIT as u128
        invariant
            k <= 75,
            q == pow2(k as nat),
            h == n / q,
            q > 0,
            k == 0 || h >= EXPONENT_STEP,
        decreases h,
    {
        proof {
            lemma_div_denominator(n as int, q as int, 2);
            lemma_fundamental_div_mod(n as int, q as int);
            lemma_pow2_unfold((k + 1) as nat);
            lemma2_to64();
            lemma2_to64_rest();
            if k == 75 {
                lemma_pow2_adds(53, 75);
                lemma_pow2_adds(64, 64);
                assert(n >= pow2(53) * pow2(75)) by (nonlinear_arith)
                    requires
                        n == q * h + n % q,
                        n % q >= 0,
                        h >= pow2(53),
                        q == pow2(75),
                ;
                assert(false);
            }
            lemma_pow2_strictly_increases(k as nat, 75);
            lemma_pow2_adds(64, 11);
        }
        h = h / 2;
        q = q * 2;
        k = k + 1;
    }
    let r = n % q;
    let ghost h0 = h as nat;
    proof {
        lemma_fundamental_div_mod(n as int, q as int);
        lemma_pow2_adds(64, 11);
        if k < 75 {
            lemma_pow2_strictly_increases(k as nat, 75);
        }
        lemma2_to64();
        lemma2_to64_rest();
    }
    let mut g: u64 = h as u64;
    if 2 * r > q || (2 * r == q && g % 2 == 1) {
        g = g + 1;
    }
    let mut e: u32 = k + s;
    let ghost exact = n as nat * pow2(s as nat);
    proof {
        lemma_pow2_pos(s as nat);
        let c = pow2(s as nat);
        lemma_pow2_adds(k as nat, s as nat);
        if k > 0 {
            assert(exact == h0 * (1 * pow2(e as nat)) + r as nat * c) by (nonlinear_arith)
                requires
                    exact == n as nat * c,
                    n == q * h0 + r,
                    pow2(e as nat) == q as nat * c,
            ;
            assert(r as nat * c < 1 * pow2(e as nat)) by (nonlinear_arith)
                requires
                    r < q,
                    c > 0,
                    pow2(e as nat) == q as nat * c,
            ;
            rounding::lemma_nearest(exact, 1, e as nat, h0, r as nat * c);
            rounding::lemma_half_even_scaled(h0, r as nat, q as nat, c);
        }
        assert(g as nat * pow2(e as nat) == if k > 0 {
            rounding::nearest(exact, 1)
        } else {
            exact
        });
    }
    let ghost value = g as nat * pow2(e as nat);
    while g < EXPONENT_STEP && e > 0
        invariant
            e <= 3075,
            g <= SIGNIFICAND_LIMIT,
            k > 0 ==> g >= EXPONENT_STEP,
            k == 0 ==> g < SIGNIFICAND_LIMIT,
            value == g as nat * pow2(e as nat),
        decreases e,
    {
        proof {
            lemma_pow2_unfold(e as nat);
            let p = pow2((e - 1) as nat);
            assert((2 * g) as nat * p == g as nat * (2 * p)) by (nonlinear_arith);
        }
        g = g * 2;
        e = e - 1;
    }
    proof {
        if k == 0 {
            rounding::lemma_nearest_exact(g as nat, e as nat);
        }
    }
    pack(g, e)
}

/// The power of two with exponent `k`.
pub(crate) fn power_of_two(k: u32) -> (p: u128)
    requires
        k <= 127,
    ensures
        p == pow2(k as nat),
{
    let mut p: u128 = 1;
    let mut i: u32 = 0;
    proof {
        lemma2_to64();
    }
    while i < k
        invariant
            i <= k <= 127,
            p == pow2(i as nat),
        decreases k - i,
    {
        proof {
            lemma_pow2_unfold((i + 1) as nat);
            lemma_pow2_adds(64, 63);
            lemma2_to64();
            lemma2_to64_rest();
            if i + 1 < 127 {
                lemma_pow2_strictly_increases((i + 1) as nat, 127);
            }
        }
        p = p * 2;
        i = i + 1;
    }
    p
}

/// The number with the given sign and magnitude bits.
pub(crate) fn with_sign(negative: bool, m: u64) -> (r: Double)
    requires
        m <= INFINITY_BITS,
    ensures
        !r.is_nan_spec(),
        r.is_negative_spec() == negative,
        r.units() == if negative {
            -(double::scaled(m as nat) as int)
        } else {
            double::scaled(m as nat) as int
        },
{
    if negative {
        Double { bits: SIGN_BIT + m }
    } else {
        Double { bits: m }
    }
}

/// The product of a sign and a magnitude.
spec fn signed(negative: bool, x: nat) -> int {
    if negative {
        -(x as int)
    } else {
        x as int
    }
}

/// The rounded sum of the signed magnitudes `m1 * 2^e1` and `m2 * 2^e2`.
fn sum(n1: bool, m1: u64, e1: u32, n2: bool, m2: u64, e2: u32) -> (r: Double)
    requires
        e2 <= e1 <= 2045,
        m1 < SIGNIFICAND_LIMIT,
        e1 == 0 || m1 >= EXPONENT_STEP,
        m2 < SIGNIFICAND_LIMIT,
    ensures
        !r.is_nan_spec(),
        r.units() == rounding::rounded(
            signed(n1, m1 as nat * pow2(e1 as nat)) + signed(n2, m2 as nat * pow2(e2 as nat)),
            1,
        ),
{
    let ghost x = m1 as nat * pow2(e1 as nat);
    let ghost y = m2 as nat * pow2(e2 as nat);
    let diff = e1 - e2;
    proof {
        rounding::lemma_nearest_exact(0, 0);
        lemma2_to64();
        lemma2_to64_rest();
        lemma_pow2_strictly_increases(0, 2098);
        lemma_pow2_pos(e2 as nat);
        lemma_pow2_adds(diff as nat, e2 as nat);
    }
    if diff > 64 {
        proof {
            let p = pow2(e2 as nat);
            lemma_pow2_adds(64, (diff - 64) as nat);
            lemma_pow2_pos((diff - 64) as nat);
            assert(4 * y < pow2(e1 as nat)) by (nonlinear_arith)
                requires
                    y == m2 as nat * p,
                    p > 0,
                    m2 < 0x20_0000_0000_0000,
                    pow2(diff as nat) == 0x1_0000_0000_0000_0000 * pow2((diff - 64) as nat),
                    pow2((diff - 64) as nat) >= 1,
                    pow2(e1 as nat) == pow2(diff as nat) * p,
            ;
            assert(x >= pow2(e1 as nat)) by (nonlinear_arith)
                requires
                    x == m1 as nat * pow2(e1 as nat),
                    m1 >= 1,
            ;
            if n1 == n2 {
                rounding::lemma_nearest_above(m1 as nat, e1 as nat, y);
            } else {
                rounding::lemma_nearest_below(m1 as nat, e1 as nat, y);
            }
        }
        return with_sign(n1, pack(m1, e1));
    }
    let scale = power_of_two(diff);
    proof {
        lemma_pow2_strictly_increases(diff as nat, 65);
        lemma_pow2_unfold(65);
        assert(m1 * scale < 0x20_0000_0000_0000 * 0x2_0000_0000_0000_0000) by (nonlinear_arith)
            requires
                m1 < 0x20_0000_0000_0000,
                scale < 0x2_0000_0000_0000_0000,
        ;
        assert(m1 * scale >= 0) by (nonlinear_arith);
    }
    let a: u128 = m1 as u128 * scale;
    let b: u128 = m2 as u128;
    proof {
        let p = pow2(e2 as nat);
        assert(x == a as nat * p) by (nonlinear_arith)
            requires
                x == m1 as nat * pow2(e1 as nat),
                pow2(e1 as nat) == scale as nat * p,
                a as nat == m1 as nat * scale as nat,
        ;
        assert((a + b) as nat * p == x + y) by (nonlinear_arith)
            requires
                x == a as nat * p,
                y == b as nat * p,
        ;
        assert((a - b) * p == x - y) by (nonlinear_arith)
            requires
                x == a as nat * p,
                y == b as nat * p,
        ;
        assert((b - a) * p == y - x) by (nonlinear_arith)
            requires
                x == a as nat * p,
                y == b as nat * p,
        ;
        assert(a >= b ==> x - y >= 0) by (nonlinear_arith)
            requires
                (a - b) * p == x - y,
                p > 0,
        ;
        assert(a < b ==> y - x > 0) by (nonlinear_arith)
            requires
                (b - a) * p == y - x,
                p > 0,
        ;
    }
    if n1 == n2 {
        with_sign(n1, encode(a + b, e2))
    } else if a >= b {
        with_sign(n1, encode(a - b, e2))
    } else {
        with_sign(n2, encode(b - a, e2))
    }
}

impl Double {
    /// The difference of two numbers in units; an infinity on one side decides.
    pub open spec fn difference(self, other: Double) -> int {
        if self.is_infinite_spec() {
            self.units()
        } else if other.is_infinite_spec() {
            -other.units()
        } else {
            rounding::rounded(self.units() - other.units(), 1)
        }
    }

    /// Whether two numbers have no difference: one of them is not a number, or both are the same
    /// infinity.
    pub open spec fn lacks_difference(self, other: Double) -> bool {
        ||| self.is_nan_spec()
        ||| other.is_nan_spec()
        ||| self.is_infinite_spec() && other.is_infinite_spec() && self.is_negative_spec()
            == other.is_negative_spec()
    }

    /// The number with the opposite sign.
    pub open spec fn negated_spec(self) -> Double {
        if self.is_negative_spec() {
            Double { bits: (self.bits - SIGN_BIT) as u64 }
        } else {
            Double { bits: (self.bits + SIGN_BIT) as u64 }
        }
    }

    /// The number with the opposite sign.
    pub fn negated(self) -> (r: Double)
        ensures
            r == self.negated_spec(),
            r.units() == -self.units(),
            r.magnitude_bits() == self.magnitude_bits(),
            r.is_negative_spec() != self.is_negative_spec(),
    {
        if self.bits < SIGN_BIT {
            Double { bits: self.bits + SIGN_BIT }
        } else {
            Double { bits: self.bits - SIGN_BIT }
        }
    }

    /// The number without its sign.
    pub fn absolute(self) -> (r: Double)
        ensures
            r.is_nan_spec() == self.is_nan_spec(),
            r.units() == if self.units() < 0 {
                -self.units()
            } else {
                self.units()
            },
    {
        Double { bits: self.bits % SIGN_BIT }
    }

    /// The difference `self - other`, rounded.
    pub fn minus(self, other: Double) -> (r: Double)
        ensures
            r.is_nan_spec() == self.lacks_difference(other),
            !r.is_nan_spec() ==> r.units() == self.difference(other),
    {
        if self.is_nan() || other.is_nan() {
            return Double { bits: 0x7ff8_0000_0000_0000 };
        }
        let a = self.bits % SIGN_BIT;
        let b = other.bits % SIGN_BIT;
        let na = self.bits >= SIGN_BIT;
        let nb = other.bits < SIGN_BIT;
        if a == INFINITY_BITS {
            if b == INFINITY_BITS && na != nb {
                return Double { bits: 0x7ff8_0000_0000_0000 };
            }
            return self;
        }
        if b == INFINITY_BITS {
            return other.negated();
        }
        let (ma, ea) = decode(a);
        let (mb, eb) = decode(b);
        if ea >= eb {
            sum(na, ma, ea, nb, mb, eb)
        } else {
            sum(nb, mb, eb, na, ma, ea)
        }
    }
}

} // verus!
