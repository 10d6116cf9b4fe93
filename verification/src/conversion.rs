//! Conversions between seconds and whole microseconds.
use vstd::arithmetic::div_mod::*;
use vstd::arithmetic::mul::*;
use vstd::arithmetic::power2::*;
use vstd::prelude::*;

use crate::arithmetic;
use crate::arithmetic::SIGNIFICAND_LIMIT;
use crate::double;
use crate::double::{Double, EXPONENT_STEP, INFINITY_BITS, SIGN_BIT};
use crate::rounding;

verus! {

/// Microseconds in a second.
pub const MICROS_PER_SEC: u64 = 1_000_000;

/// The number one in units.
pub open spec fn one() -> nat {
    pow2(1074)
}

/// A magnitude in units to the nearest whole number; a tie goes up.
pub open spec fn half_up(u: nat) -> nat {
    (2 * u + one()) / (2 * one())
}

/// A number in units to the nearest whole number, a tie going away from zero, and within the range
/// of 64-bit integers.
pub open spec fn nearest_integer(u: int) -> int {
    let w: int = if u < 0 {
        -(half_up((-u) as nat) as int)
    } else {
        half_up(u as nat) as int
    };
    if w > i64::MAX {
        i64::MAX as int
    } else if w < i64::MIN {
        i64::MIN as int
    } else {
        w
    }
}

/// The whole microseconds in a number of seconds: the product with a million, rounded as a binary64
/// number, then to the nearest whole number; none, if there is no number.
pub open spec fn micros(seconds: Double) -> int {
    if seconds.is_nan_spec() {
        0
    } else if seconds.is_infinite_spec() {
        nearest_integer(seconds.units())
    } else {
        nearest_integer(rounding::rounded(seconds.units() * MICROS_PER_SEC, 1))
    }
}

/// The seconds in a whole number of microseconds, in units: the integer rounded as a binary64
/// number, divided by a million, rounded again.
pub open spec fn micros_units(micros: int) -> int {
    rounding::rounded(rounding::rounded(micros * one(), 1), MICROS_PER_SEC as nat)
}

/// A common factor does not change a quotient.
proof fn lemma_div_common_factor(a: nat, b: nat, c: nat)
    requires
        b > 0,
        c > 0,
    ensures
        (a * c) / (b * c) == a / b,
{
    let q = a / b;
    let r = a % b;
    lemma_fundamental_div_mod(a as int, b as int);
    assert(a * c == q * (b * c) + r * c) by (nonlinear_arith)
        requires
            a == b * q + r,
    ;
    assert(0 <= r * c < b * c) by (nonlinear_arith)
        requires
            0 <= r < b,
            c > 0,
    ;
    lemma_fundamental_div_mod_converse((a * c) as int, (b * c) as int, q as int, (r * c) as int);
}

/// The nearest whole number of `h * 2^f` units, at most `2^63`.
fn whole(h: u64, f: u32) -> (w: u64)
    requires
        h < SIGNIFICAND_LIMIT,
        f <= 2045,
        f == 0 || h >= EXPONENT_STEP,
    ensures
        w <= SIGN_BIT,
        half_up(h as nat * pow2(f as nat)) < SIGN_BIT ==> w == half_up(h as nat * pow2(f as nat)),
        half_up(h as nat * pow2(f as nat)) >= SIGN_BIT ==> w == SIGN_BIT,
{
    let ghost u = h as nat * pow2(f as nat);
    let ghost s = one();
    proof {
        lemma2_to64();
        lemma2_to64_rest();
        lemma_pow2_pos(1074);
        lemma_pow2_pos(f as nat);
    }
    if f >= 1074 {
        let up = f - 1074;
        proof {
            lemma_pow2_adds(up as nat, 1074);
            lemma_pow2_pos(up as nat);
            let v = h as nat * pow2(up as nat);
            assert(2 * u + s == v * (2 * s) + s) by (nonlinear_arith)
                requires
                    u == h as nat * (pow2(up as nat) * s),
                    v == h as nat * pow2(up as nat),
            ;
            lemma_fundamental_div_mod_converse((2 * u + s) as int, (2 * s) as int, v as int, s as int);
            assert(half_up(u) == v);
            if up >= 11 {
                if up > 11 {
                    lemma_pow2_strictly_increases(11, up as nat);
                }
                assert(v >= SIGN_BIT) by (nonlinear_arith)
                    requires
                        v == h as nat * pow2(up as nat),
                        h >= 0x10_0000_0000_0000,
                        pow2(up as nat) >= 0x800,
                ;
            } else {
                lemma_pow2_strictly_increases(up as nat, 11);
                assert(pow2(up as nat) <= 0x400) by {
                    if up < 10 {
                        lemma_pow2_strictly_increases(up as nat, 10);
                    }
                }
                assert(v < SIGN_BIT) by (nonlinear_arith)
                    requires
                        v == h as nat * pow2(up as nat),
                        h < 0x20_0000_0000_0000,
                        0 < pow2(up as nat) <= 0x400,
                ;
            }
        }
        if up >= 11 {
            SIGN_BIT
        } else {
            let p = arithmetic::power_of_two(up);
            (h as u128 * p) as u64
        }
    } else {
        let down = 1074 - f;
        let ghost c = pow2(f as nat);
        proof {
            lemma_pow2_adds(down as nat, f as nat);
            let d = pow2(down as nat);
            lemma_pow2_pos(down as nat);
            assert(2 * u + s == (2 * h as nat + d) * c && 2 * s == (2 * d) * c) by (nonlinear_arith)
                requires
                    u == h as nat * c,
                    s == d * c,
            ;
            lemma_div_common_factor(2 * h as nat + d, 2 * d, c);
            assert(half_up(u) == (2 * h as nat + d) / (2 * d));
        }
        if down >= 55 {
            proof {
                let d = pow2(down as nat);
                if down > 55 {
                    lemma_pow2_strictly_increases(55, down as nat);
                }
                lemma_fundamental_div_mod_converse(
                    (2 * h as nat + d) as int,
                    (2 * d) as int,
                    0,
                    (2 * h as nat + d) as int,
                );
            }
            0
        } else {
            let d = arithmetic::power_of_two(down);
            proof {
                lemma_pow2_strictly_increases(down as nat, 55);
                assert((2 * h as nat + d as nat) / (2 * d as nat) <= 2 * h as nat + d as nat) by {
                    lemma_div_nonincreasing(
                        (2 * h as nat + d as nat) as int,
                        (2 * d as nat) as int,
                    );
                }
            }
            ((2 * h as u128 + d) / (2 * d)) as u64
        }
    }
}

/// The whole microseconds in a number of seconds, within the range of 64-bit integers.
pub fn seconds_to_micros(seconds: Double) -> (r: i64)
    ensures
        r == micros(seconds),
{
    if seconds.is_nan() {
        return 0;
    }
    let negative = seconds.bits >= SIGN_BIT;
    let magnitude = seconds.bits % SIGN_BIT;
    let product: u64 = if magnitude == INFINITY_BITS {
        INFINITY_BITS
    } else {
        let (m, e) = arithmetic::decode(magnitude);
        proof {
            let x = double::scaled(magnitude as nat);
            assert((m as u128 * MICROS_PER_SEC as u128) as nat * pow2(e as nat) == x
                * MICROS_PER_SEC) by (nonlinear_arith)
                requires
                    x == m as nat * pow2(e as nat),
                    (m as u128 * MICROS_PER_SEC as u128) as nat == m as nat * MICROS_PER_SEC as nat,
            ;
        }
        arithmetic::encode(m as u128 * MICROS_PER_SEC as u128, e)
    };
    let ghost u = double::scaled(product as nat);
    proof {
        rounding::lemma_nearest_exact(0, 0);
        lemma2_to64();
        lemma_pow2_strictly_increases(0, 2098);
        lemma_pow2_pos(1074);
    }
    let w: u64 = if product == INFINITY_BITS {
        proof {
            lemma2_to64_rest();
            lemma_pow2_adds(52, 2046);
            lemma_pow2_adds(1024, 1074);
            assert(u == pow2(1024) * one());
            lemma_pow2_strictly_increases(64, 1024);
            let v = pow2(1024);
            let s = one();
            assert(2 * u + s == v * (2 * s) + s) by (nonlinear_arith)
                requires
                    u == v * s,
            ;
            lemma_fundamental_div_mod_converse((2 * u + s) as int, (2 * s) as int, v as int, s as int);
        }
        SIGN_BIT
    } else {
        let (h, f) = arithmetic::decode(product);
        whole(h, f)
    };
    proof {
        // A magnitude of zero has no sign.
        assert(half_up(0) == 0) by {
            lemma_fundamental_div_mod_converse(one() as int, (2 * one()) as int, 0, one() as int);
        }
    }
    if negative {
        if w == SIGN_BIT {
            i64::MIN
        } else {
            -(w as i64)
        }
    } else if w == SIGN_BIT {
        i64::MAX
    } else {
        w as i64
    }
}

/// The seconds in a whole number of microseconds.
pub fn micros_to_seconds(micros: i64) -> (r: Double)
    ensures
        !r.is_nan_spec(),
        r.is_negative_spec() == (micros < 0),
        r.units() == micros_units(micros as int),
{
    let negative = micros < 0;
    let magnitude: u64 = if negative {
        (-(micros + 1)) as u64 + 1
    } else {
        micros as u64
    };
    let ghost x = magnitude as nat * one();
    let number = arithmetic::encode(magnitude as u128, 1074);
    let ghost u = double::scaled(number as nat);
    proof {
        lemma2_to64();
        lemma2_to64_rest();
        lemma_pow2_pos(1074);
        assert(micros < 0 ==> micros * one() == -x && x > 0) by (nonlinear_arith)
            requires
                micros < 0 ==> magnitude == -micros,
                x == magnitude as nat * one(),
                one() > 0,
        ;
        assert(micros >= 0 ==> micros * one() == x);
        rounding::lemma_nearest_bound(x);
        lemma_pow2_adds(66, 1074);
        lemma_pow2_adds(64, 2);
        lemma_pow2_strictly_increases(1140, 2098);
        assert(2 * x < pow2(66) * one()) by (nonlinear_arith)
            requires
                x == magnitude as nat * one(),
                magnitude <= 0x8000_0000_0000_0000,
                pow2(66) == 0x4_0000_0000_0000_0000,
                one() > 0,
        ;
        assert(u == rounding::nearest(x, 1));
        lemma_pow2_adds(52, 2046);
        assert(double::scaled(INFINITY_BITS as nat) == rounding::infinite_units());
        double::lemma_scaled_injective(number as nat, INFINITY_BITS as nat);
    }
    let (h, e) = arithmetic::decode(number);
    if magnitude == 0 {
        proof {
            assert(x == 0) by (nonlinear_arith)
                requires
                    x == magnitude as nat * one(),
                    magnitude == 0,
            ;
            assert(rounding::nearest(0, MICROS_PER_SEC as nat) == 0) by {
                rounding::lemma_nearest(0, MICROS_PER_SEC as nat, 0, 0, 0);
            }
            lemma_pow2_strictly_increases(0, 2098);
        }
        return arithmetic::with_sign(false, 0);
    }
    proof {
        assert(e >= 20) by {
            if e < 20 {
                lemma_pow2_strictly_increases(e as nat, 20);
                lemma_pow2_adds(64, 1010);
                lemma_pow2_strictly_increases(20, 1010);
                assert(2 * u < x) by (nonlinear_arith)
                    requires
                        u == h as nat * pow2(e as nat),
                        h < 0x20_0000_0000_0000,
                        pow2(e as nat) < 0x10_0000,
                        x == magnitude as nat * one(),
                        magnitude >= 1,
                        one() == 0x1_0000_0000_0000_0000 * pow2(1010),
                        pow2(1010) > 0x10_0000,
                ;
            }
        }
    }
    let d: u128 = MICROS_PER_SEC as u128;
    let t: u32 = if (h as u128 * 0x10_0000) / d < SIGNIFICAND_LIMIT as u128 {
        20
    } else {
        19
    };
    let scale: u128 = if t == 20 {
        0x10_0000
    } else {
        0x8_0000
    };
    let g = (h as u128 * scale) / d;
    let r = (h as u128 * scale) % d;
    let ghost k = (e - t) as nat;
    proof {
        let c = pow2(k);
        lemma_pow2_pos(k);
        lemma_pow2_adds(t as nat, k);
        assert(u == g as nat * (d as nat * c) + r as nat * c) by (nonlinear_arith)
            requires
                u == h as nat * pow2(e as nat),
                pow2(e as nat) == scale as nat * c,
                h as nat * scale as nat == g as nat * d as nat + r as nat,
        ;
        assert(r as nat * c < d as nat * c) by (nonlinear_arith)
            requires
                r < d,
                c > 0,
        ;
        rounding::lemma_nearest(u, d as nat, k, g as nat, r as nat * c);
        rounding::lemma_half_even_scaled(g as nat, r as nat, d as nat, c);
    }
    let quotient: u64 = if 2 * r > d || (2 * r == d && g % 2 == 1) {
        g as u64 + 1
    } else {
        g as u64
    };
    proof {
        assert(u > 0) by (nonlinear_arith)
            requires
                u == h as nat * pow2(e as nat),
                h > 0,
                pow2(e as nat) > 0,
        ;
    }
    arithmetic::with_sign(negative, arithmetic::pack(quotient, e - t))
}

/// A whole number, in units, to the nearest whole number is that number.
proof fn lemma_half_up_whole(m: nat)
    ensures
        half_up(m * one()) == m,
{
    let s = one();
    lemma_pow2_pos(1074);
    assert(2 * (m * s) + s == m * (2 * s) + s) by (nonlinear_arith);
    lemma_fundamental_div_mod_converse((2 * (m * s) + s) as int, (2 * s) as int, m as int, s as int);
}

/// Shifted by the places of a whole number, a number stays far below infinity.
proof fn lemma_below_infinity(y: nat)
    requires
        y <= 0x1_0000_0000_0000_0000 * one(),
    ensures
        2 * y < rounding::infinite_units(),
{
    lemma2_to64();
    lemma2_to64_rest();
    lemma_pow2_pos(1074);
    lemma_pow2_adds(64, 1074);
    lemma_pow2_unfold(1139);
    lemma_pow2_strictly_increases(1139, 2098);
}

/// Seconds that are a whole number of microseconds give that number, within 53 bits.
pub proof fn law_micros_exact(seconds: Double, whole: int)
    requires
        !seconds.is_nan_spec(),
        !seconds.is_infinite_spec(),
        seconds.units() * 1_000_000 == whole * pow2(1074),
        -0x20_0000_0000_0000 < whole < 0x20_0000_0000_0000,
    ensures
        micros(seconds) == whole,
{
    let m: nat = if whole < 0 {
        (-whole) as nat
    } else {
        whole as nat
    };
    lemma_pow2_pos(1074);
    assert(whole < 0 ==> whole * pow2(1074) == -(m * pow2(1074)) && m * pow2(1074) > 0)
        by (nonlinear_arith)
        requires
            whole < 0 ==> m == -whole,
            pow2(1074) > 0,
    ;
    assert(m * pow2(1074) <= 0x1_0000_0000_0000_0000 * one()) by (nonlinear_arith)
        requires
            m < 0x20_0000_0000_0000,
            one() == pow2(1074),
    ;
    assert(whole >= 0 ==> m * pow2(1074) >= 0) by (nonlinear_arith);
    lemma_below_infinity(m * pow2(1074));
    rounding::law_nearest_keeps_exact(m, 1074);
    lemma_half_up_whole(m);
}

/// Other seconds give the nearest number of microseconds, off by at most one half and one part in `2^53`,
/// as long as 62 bits hold it; what 64 bits do not hold gives the largest number of that sign.
pub proof fn law_micros_close(seconds: Double)
    requires
        !seconds.is_nan_spec(),
    ensures
        !seconds.is_infinite_spec() && -0x4000_0000_0000_0000 * pow2(1074) <= seconds.units()
            * 1_000_000 <= 0x4000_0000_0000_0000 * pow2(1074) ==> {
            let y = seconds.units() * 1_000_000;
            let off = 0x20_0000_0000_0000 * (micros(seconds) * pow2(1074) - y);
            let size = if y < 0 {
                -y
            } else {
                y
            };
            -(0x10_0000_0000_0000 * pow2(1074) + size) <= off <= 0x10_0000_0000_0000 * pow2(1074)
                + size
        },
        seconds.units() * 1_000_000 >= 0x1_0000_0000_0000_0000 * pow2(1074) ==> micros(seconds)
            == i64::MAX,
        seconds.units() * 1_000_000 <= -0x1_0000_0000_0000_0000 * pow2(1074) ==> micros(seconds)
            == i64::MIN,
{
    lemma_pow2_pos(1074);
    let s = pow2(1074);
    let x = seconds.units() * 1_000_000;
    let y: nat = if x < 0 {
        (-x) as nat
    } else {
        x as nat
    };
    if seconds.is_infinite_spec() {
        lemma2_to64();
        lemma2_to64_rest();
        lemma_pow2_adds(52, 2046);
        lemma_pow2_adds(1024, 1074);
        lemma_pow2_strictly_increases(64, 1024);
        assert(double::scaled(INFINITY_BITS as nat) == pow2(52) * pow2(2046));
        lemma_half_up_whole(pow2(1024));
        assert(seconds.units() == pow2(1024) * s || seconds.units() == -(pow2(1024) * s));
        lemma_pow2_pos(2098);
    } else {
        let w = rounding::nearest(y, 1);
        rounding::law_nearest_is_close(y, 1);
        let v = rounding::rounded_magnitude(y, 1);
        let r = half_up(v);
        lemma_fundamental_div_mod((2 * v + s) as int, (2 * s) as int);
        let rest = ((2 * v + s) as int) % ((2 * s) as int);
        assert(-(s as int) <= 2 * (r * s - v) <= s) by (nonlinear_arith)
            requires
                2 * v + s == (2 * s) * r + rest,
                0 <= rest < 2 * s,
        ;
        if y <= 0x4000_0000_0000_0000 * s {
            lemma_below_infinity(y);
            rounding::lemma_nearest_bound(y);
            assert(v == w);
            assert(r <= i64::MAX) by (nonlinear_arith)
                requires
                    2 * (r * s - v) <= s,
                    0x20_0000_0000_0000 * (v - y) <= y || v == y,
                    y <= 0x4000_0000_0000_0000 * s,
                    s > 0,
            ;
            assert(x < 0 ==> (-(r as int)) * s == -(r * s)) by (nonlinear_arith);
        }
        if y >= 0x1_0000_0000_0000_0000 * s {
            rounding::law_nearest_keeps_exact(1, 1138);
            lemma_pow2_adds(64, 1074);
            lemma2_to64();
            lemma2_to64_rest();
            assert(1 * pow2(1138) == pow2(1138));
            rounding::law_nearest_keeps_order(pow2(1138), y);
            lemma_pow2_strictly_increases(1138, 2098);
            assert(v >= pow2(1138));
            assert(r > i64::MAX && r > -(i64::MIN as int)) by (nonlinear_arith)
                requires
                    2 * (r * s - v) >= -(s as int),
                    v >= 0x1_0000_0000_0000_0000 * s,
                    s > 0,
            ;
        }
    }
}

/// Seconds that lie in the middle between two whole numbers of microseconds give the one that is further
/// from zero, within 52 bits.
pub proof fn law_micros_tie(seconds: Double, whole: nat)
    requires
        !seconds.is_nan_spec(),
        !seconds.is_infinite_spec(),
        whole < 0x10_0000_0000_0000,
    ensures
        2 * (seconds.units() * 1_000_000) == (2 * whole + 1) * pow2(1074) ==> micros(seconds) == whole
            + 1,
        2 * (seconds.units() * 1_000_000) == -((2 * whole + 1) * pow2(1074)) ==> micros(seconds)
            == -(whole + 1),
{
    let m = 2 * whole + 1;
    let s = pow2(1074);
    let y = m * pow2(1073);
    lemma_pow2_pos(1073);
    lemma_pow2_pos(1074);
    lemma_pow2_unfold(1074);
    assert(2 * y == m * s && y <= 0x1_0000_0000_0000_0000 * s && y > 0) by (nonlinear_arith)
        requires
            y == m * pow2(1073),
            s == 2 * pow2(1073),
            0 < m <= 0x20_0000_0000_0000,
            pow2(1073) > 0,
    ;
    lemma_below_infinity(y);
    rounding::law_nearest_keeps_exact(m, 1073);
    assert(2 * y + s == (whole + 1) * (2 * s)) by (nonlinear_arith)
        requires
            2 * y == (2 * whole + 1) * s,
    ;
    lemma_fundamental_div_mod_converse((2 * y + s) as int, (2 * s) as int, (whole + 1) as int, 0);
}

/// What is not a number gives no microseconds.
pub proof fn law_micros_of_no_number(seconds: Double)
    requires
        seconds.is_nan_spec(),
    ensures
        micros(seconds) == 0,
{
}

/// A whole number of seconds, given in microseconds, is that number of seconds, within 53 bits.
pub proof fn law_seconds_exact(seconds: int)
    requires
        -0x20_0000_0000_0000 < seconds * 1_000_000 < 0x20_0000_0000_0000,
    ensures
        micros_units(seconds * 1_000_000) == seconds * pow2(1074),
{
    let s = pow2(1074);
    lemma_pow2_pos(1074);
    lemma2_to64();
    let n: nat = if seconds < 0 {
        (-seconds) as nat
    } else {
        seconds as nat
    };
    let m = n * 1_000_000;
    rounding::law_nearest_keeps_exact(m, 1074);
    assert(m * s <= 0x1_0000_0000_0000_0000 * s) by (nonlinear_arith)
        requires
            m < 0x20_0000_0000_0000,
    ;
    lemma_below_infinity(m * s);
    assert((seconds * 1_000_000) * s == if seconds < 0 {
        -(m * s)
    } else {
        (m * s) as int
    }) by (nonlinear_arith)
        requires
            m == n * 1_000_000,
            n == if seconds < 0 {
                -seconds
            } else {
                seconds
            },
    ;
    assert(m > 0 ==> m * s > 0) by (nonlinear_arith)
        requires
            s > 0,
    ;
    assert(n * s <= m * s) by (nonlinear_arith)
        requires
            m == n * 1_000_000,
    ;
    assert(rounding::nearest(m * s, 1_000_000) == n * s) by {
        assert(m * s == (n * s) * 1_000_000) by (nonlinear_arith)
            requires
                m == n * 1_000_000,
        ;
        lemma_nearest_of_multiple(n, 1074, 1_000_000);
    }
    assert(seconds * s == if seconds < 0 {
        -(n * s)
    } else {
        (n * s) as int
    }) by (nonlinear_arith)
        requires
            n == if seconds < 0 {
                -seconds
            } else {
                seconds
            },
    ;
}

/// Dividing a multiple of a number of at most 53 bits is exact.
proof fn lemma_nearest_of_multiple(m: nat, s: nat, d: nat)
    requires
        m < 0x20_0000_0000_0000,
        d > 0,
    ensures
        rounding::nearest((m * pow2(s)) * d, d) == m * pow2(s),
    decreases s,
{
    if s == 0 || m >= 0x10_0000_0000_0000 {
        lemma_pow2_pos(s);
        assert((m * pow2(s)) * d == m * (d * pow2(s)) + 0 && d * pow2(s) > 0) by (nonlinear_arith)
            requires
                d > 0,
                pow2(s) > 0,
        ;
        rounding::lemma_nearest((m * pow2(s)) * d, d, s, m, 0);
    } else {
        lemma_pow2_unfold(s);
        let p = pow2((s - 1) as nat);
        assert(m * (2 * p) == (2 * m) * p) by (nonlinear_arith);
        lemma_nearest_of_multiple(2 * m, (s - 1) as nat, d);
    }
}

/// Microseconds in seconds are off by at most one part in `2^51`.
pub proof fn law_seconds_close(whole: int)
    requires
        i64::MIN <= whole <= i64::MAX,
    ensures
        ({
            let exact = whole * pow2(1074);
            let off = 0x8_0000_0000_0000 * (micros_units(whole) * 1_000_000 - exact);
            if whole < 0 {
                exact <= off <= -exact
            } else {
                -exact <= off <= exact
            }
        }),
{
    let s = pow2(1074);
    let m: nat = if whole < 0 {
        (-whole) as nat
    } else {
        whole as nat
    };
    let y = m * s;
    lemma_pow2_pos(1074);
    lemma2_to64();
    lemma2_to64_rest();
    assert(whole * s == if whole < 0 {
        -(y as int)
    } else {
        y as int
    }) by (nonlinear_arith)
        requires
            y == m * s,
            m == if whole < 0 {
                -whole
            } else {
                whole
            },
    ;
    assert(y <= 0x8000_0000_0000_0000 * s) by (nonlinear_arith)
        requires
            m <= 0x8000_0000_0000_0000,
            y == m * s,
    ;
    if m == 0 {
        law_seconds_exact(0);
        assert(y == 0) by (nonlinear_arith)
            requires
                m == 0,
                y == m * s,
        ;
    } else {
        lemma_below_infinity(y);
        rounding::lemma_nearest_bound(y);
        lemma_pow2_strictly_increases(100, 1074);
        lemma_pow2_adds(64, 36);
        assert(y >= pow2(100)) by (nonlinear_arith)
            requires
                y == m * s,
                m >= 1,
                s >= pow2(100),
        ;
        let v = rounding::nearest(y, 1);
        let u = rounding::nearest(v, 1_000_000);
        assert(v > 0x20_0000_0000_0000 * 1_000_000);
        rounding::law_nearest_is_close(y, 1);
        rounding::law_nearest_is_close(v, 1_000_000);
        assert(u < rounding::infinite_units());
    }
}

} // verus!
