//! The numbers and the comparisons that the players use.
use vstd::arithmetic::power2::*;
use vstd::prelude::*;

use crate::conversion;
use crate::double;
use crate::double::Double;
use crate::rounding;

verus! {

/// The default relative seek amount, in seconds.
pub const DEFAULT_SEEK_STEP_SECS: u64 = 15;

/// The smallest playback rate that a player accepts, 0.25, by its bit pattern. It must be above zero.
pub const MIN_PLAYBACK_RATE: u64 = 0x3fd0_0000_0000_0000;

/// The largest playback rate that a player accepts, 2, by its bit pattern.
pub const MAX_PLAYBACK_RATE: u64 = 0x4000_0000_0000_0000;

/// The number zero.
pub open spec fn zero() -> Double {
    Double { bits: 0 }
}

/// The number one.
pub open spec fn one() -> Double {
    Double { bits: 0x3ff0_0000_0000_0000 }
}

/// The distance from one to the next larger number.
pub open spec fn epsilon() -> Double {
    Double { bits: 0x3cb0_0000_0000_0000 }
}

/// The default relative seek amount.
pub open spec fn seek_step() -> Double {
    Double { bits: 0x402e_0000_0000_0000 }
}

/// The numbers that the bit patterns stand for.
pub proof fn lemma_constants()
    ensures
        zero().units() == 0,
        one().units() == conversion::one(),
        epsilon().units() * pow2(52) == conversion::one(),
        seek_step().units() == DEFAULT_SEEK_STEP_SECS * conversion::one(),
        (Double { bits: MIN_PLAYBACK_RATE }).units() * 4 == conversion::one(),
        (Double { bits: MAX_PLAYBACK_RATE }).units() == 2 * conversion::one(),
        !zero().is_nan_spec(),
        !one().is_nan_spec(),
        !epsilon().is_nan_spec(),
        !seek_step().is_nan_spec(),
        conversion::one() > 0,
{
    lemma2_to64();
    lemma2_to64_rest();
    lemma_pow2_adds(52, 1022);
    lemma_pow2_adds(52, 970);
    lemma_pow2_pos(1074);
    assert(double::scaled(0x3ff0_0000_0000_0000) == pow2(52) * pow2(1022));
    assert(double::scaled(0x3cb0_0000_0000_0000) == pow2(52) * pow2(970));
    assert(pow2(1022) * pow2(52) == pow2(52) * pow2(1022)) by (nonlinear_arith);
    lemma_pow2_adds(52, 1020);
    lemma_pow2_adds(1072, 2);
    lemma_pow2_adds(1074, 1);
    lemma_pow2_adds(52, 1023);
    assert(double::scaled(0x3fd0_0000_0000_0000) == pow2(52) * pow2(1020));
    assert(double::scaled(0x4000_0000_0000_0000) == pow2(52) * pow2(1023));
    lemma_pow2_adds(49, 1025);
    assert(double::scaled(0x402e_0000_0000_0000) == 0x1e_0000_0000_0000 * pow2(1025));
    assert(0x1e_0000_0000_0000 * pow2(1025) == 15 * (pow2(49) * pow2(1025))) by (nonlinear_arith)
        requires
            pow2(49) == 0x2_0000_0000_0000,
    ;
}

impl Double {
    /// The larger of this number and zero; zero, if there is no number.
    pub open spec fn at_least_zero_spec(self) -> Double {
        if zero().lt(self) {
            self
        } else {
            zero()
        }
    }

    /// This number, brought into the range from zero to one.
    pub open spec fn unit_range_spec(self) -> Double {
        if self.lt(zero()) {
            zero()
        } else if one().lt(self) {
            one()
        } else {
            self
        }
    }

    /// Whether this number and `other` are further apart than a rounding error of numbers near one.
    #[verifier::opaque]
    pub open spec fn differs_spec(self, other: Double) -> bool {
        !self.lacks_difference(other) && (self.difference(other) > epsilon().units()
            || self.difference(other) < -epsilon().units())
    }

    /// Whether this number is more than `step` above `other`.
    pub open spec fn exceeds_spec(self, other: Double, step: Double) -> bool {
        !self.lacks_difference(other) && !step.is_nan_spec() && self.difference(other)
            > step.units()
    }

    /// Whether a player accepts this number as its playback rate.
    pub open spec fn is_playback_rate_spec(self) -> bool {
        &&& !self.is_nan_spec()
        &&& (Double { bits: MIN_PLAYBACK_RATE }).units() <= self.units() <= (Double {
            bits: MAX_PLAYBACK_RATE,
        }).units()
    }

    /// The number zero.
    pub fn zero() -> (r: Double)
        ensures
            r == zero(),
    {
        Double { bits: 0 }
    }

    /// The number one.
    pub fn one() -> (r: Double)
        ensures
            r == one(),
            r.units() == conversion::one(),
    {
        proof {
            lemma_constants();
        }
        Double { bits: 0x3ff0_0000_0000_0000 }
    }

    /// The larger of this number and zero; zero, if there is no number.
    pub fn at_least_zero(self) -> (r: Double)
        ensures
            r == self.at_least_zero_spec(),
    {
        if Double::zero().less_than(self) {
            self
        } else {
            Double::zero()
        }
    }

    /// This number, brought into the range from zero to one.
    pub fn unit_range(self) -> (r: Double)
        ensures
            r == self.unit_range_spec(),
    {
        if self.less_than(Double::zero()) {
            Double::zero()
        } else if Double::one().less_than(self) {
            Double::one()
        } else {
            self
        }
    }

    /// Whether this number and `other` are further apart than a rounding error of numbers near one.
    pub fn differs(self, other: Double) -> (r: bool)
        ensures
            r == self.differs_spec(other),
    {
        proof {
            lemma_constants();
        }
        reveal(Double::differs_spec);
        let epsilon = Double { bits: 0x3cb0_0000_0000_0000 };
        epsilon.less_than(self.minus(other).absolute())
    }

    /// Whether this number is more than `step` above `other`.
    pub fn exceeds(self, other: Double, step: Double) -> (r: bool)
        ensures
            r == self.exceeds_spec(other, step),
    {
        step.less_than(self.minus(other))
    }

    /// Whether a player accepts this number as its playback rate.
    pub fn is_playback_rate(self) -> (r: bool)
        ensures
            r == self.is_playback_rate_spec(),
    {
        proof {
            lemma_constants();
        }
        !self.is_nan() && !self.less_than(Double { bits: MIN_PLAYBACK_RATE }) && !(Double {
            bits: MAX_PLAYBACK_RATE,
        }).less_than(self)
    }
}

/// The default relative seek amount.
pub fn default_seek_step() -> (r: Double)
    ensures
        r == seek_step(),
        r.units() == DEFAULT_SEEK_STEP_SECS * conversion::one(),
{
    proof {
        lemma_constants();
    }
    Double { bits: 0x402e_0000_0000_0000 }
}

/// Why a player refuses a timeline, if it does: a number is below zero, or the position is above the
/// duration. What is not a number is below and above nothing.
pub open spec fn timeline_fault(duration: Double, position: Double) -> Option<Seq<char>> {
    if duration.lt(zero()) {
        Some("Duration cannot be less than 0"@)
    } else if position.lt(zero()) {
        Some("Position cannot be less than 0"@)
    } else if duration.lt(position) {
        Some("Position cannot be greather than provided duration"@)
    } else {
        None
    }
}

/// In a timeline that is accepted the position lies between zero and the duration. What is not a number
/// is left out.
pub proof fn law_timeline_in_range(duration: Double, position: Double)
    requires
        timeline_fault(duration, position) is None,
        !duration.is_nan_spec(),
        !position.is_nan_spec(),
    ensures
        zero().le(position),
        position.le(duration),
{
    lemma_constants();
}

/// Refuses a duration or a position below zero, and a position above the duration.
pub fn validate_timeline(duration: Double, position: Double) -> (r: Result<(), String>)
    ensures
        r is Ok <==> timeline_fault(duration, position) is None,
        r matches Err(reason) ==> timeline_fault(duration, position) == Some(reason@),
{
    if duration.less_than(Double::zero()) {
        return Err("Duration cannot be less than 0".to_owned());
    }
    if position.less_than(Double::zero()) {
        return Err("Position cannot be less than 0".to_owned());
    }
    if duration.less_than(position) {
        return Err("Position cannot be greather than provided duration".to_owned());
    }
    Ok(())
}

/// Of two numbers one is less, or they are equal, and never two of these at once; what is not a number
/// compares with nothing.
pub proof fn law_order_total(a: Double, b: Double)
    ensures
        !a.is_nan_spec() && !b.is_nan_spec() ==> {
            &&& a.lt(b) || b.lt(a) || a.same(b)
            &&& a.le(b) <==> !b.lt(a)
        },
        !(a.lt(b) && b.lt(a)),
        a.same(b) ==> !a.lt(b) && !b.lt(a) && b.same(a),
        a.is_nan_spec() || b.is_nan_spec() ==> !a.lt(b) && !a.le(b) && !a.same(b),
        a.le(b) <==> a.lt(b) || a.same(b),
{
}

/// The order of numbers has no gaps: what is below a smaller number is below a larger one.
pub proof fn law_order_transitive(a: Double, b: Double, c: Double)
    ensures
        a.lt(b) && b.le(c) ==> a.lt(c),
        a.le(b) && b.lt(c) ==> a.lt(c),
        a.same(b) && b.same(c) ==> a.same(c),
{
}

/// A changed sign turns a number around zero, and the order of two numbers around; changed twice it is
/// the same again.
pub proof fn law_negation(a: Double, b: Double)
    ensures
        a.negated_spec().units() == -a.units(),
        a.negated_spec() != a,
        a.negated_spec().negated_spec() == a,
        a.negated_spec().is_nan_spec() == a.is_nan_spec(),
        a.lt(b) <==> b.negated_spec().lt(a.negated_spec()),
{
    assert(a.negated_spec().magnitude_bits() == a.magnitude_bits());
    assert(b.negated_spec().magnitude_bits() == b.magnitude_bits());
}

/// The larger of a number and zero: a number above zero stays, and every other value becomes zero.
pub proof fn law_at_least_zero(a: Double)
    ensures
        !a.at_least_zero_spec().is_nan_spec(),
        a.at_least_zero_spec().units() >= 0,
        !a.is_nan_spec() && a.units() > 0 ==> a.at_least_zero_spec() == a,
        a.is_nan_spec() || a.units() <= 0 ==> a.at_least_zero_spec().bits == 0,
{
    lemma_constants();
}

/// A number from zero to one stays; a smaller one becomes zero, a larger one becomes one.
pub proof fn law_unit_range(a: Double)
    ensures
        a.is_nan_spec() ==> a.unit_range_spec() == a,
        !a.is_nan_spec() && a.units() < 0 ==> a.unit_range_spec().bits == 0,
        !a.is_nan_spec() && a.units() > pow2(1074) ==> a.unit_range_spec().units() == pow2(1074)
            && !a.unit_range_spec().is_nan_spec(),
        !a.is_nan_spec() && 0 <= a.units() <= pow2(1074) ==> a.unit_range_spec() == a,
{
    lemma_constants();
}

/// The playback rates are the numbers from one quarter to two.
pub proof fn law_playback_rates(a: Double)
    ensures
        a.is_playback_rate_spec() <==> {
            &&& !a.is_nan_spec()
            &&& pow2(1074) <= 4 * a.units()
            &&& a.units() <= 2 * pow2(1074)
        },
{
    lemma_constants();
}

/// A timeline is refused for the first fault that it has, and accepted where it has none.
pub proof fn law_timeline_faults(duration: Double, position: Double)
    ensures
        timeline_fault(duration, position) == Some("Duration cannot be less than 0"@) <==> {
            &&& !duration.is_nan_spec()
            &&& duration.units() < 0
        },
        timeline_fault(duration, position) == Some("Position cannot be less than 0"@) <==> {
            &&& duration.is_nan_spec() || duration.units() >= 0
            &&& !position.is_nan_spec()
            &&& position.units() < 0
        },
        timeline_fault(duration, position) == Some(
            "Position cannot be greather than provided duration"@,
        ) <==> {
            &&& !duration.is_nan_spec()
            &&& !position.is_nan_spec()
            &&& 0 <= duration.units() < position.units()
        },
        timeline_fault(duration, position) is None <==> {
            &&& duration.is_nan_spec() || duration.units() >= 0
            &&& position.is_nan_spec() || position.units() >= 0
            &&& duration.is_nan_spec() || position.is_nan_spec() || position.units()
                <= duration.units()
        },
{
    lemma_constants();
    reveal_strlit("Duration cannot be less than 0");
    reveal_strlit("Position cannot be less than 0");
    reveal_strlit("Position cannot be greather than provided duration");
    assert("Duration cannot be less than 0"@[0] == 'D');
    assert("Position cannot be less than 0"@[0] == 'P');
    assert("Position cannot be less than 0"@.len() == 30);
    assert("Position cannot be greather than provided duration"@[0] == 'P');
    assert("Position cannot be greather than provided duration"@.len() == 50);
}

/// The significand and the shift of the magnitude bits of a number or of infinity.
proof fn lemma_scaled_form(m: nat) -> (r: (nat, nat))
    ensures
        r.0 < 0x20_0000_0000_0000,
        r.1 == 0 || r.0 >= 0x10_0000_0000_0000,
        double::scaled(m) == r.0 * pow2(r.1),
{
    lemma2_to64();
    lemma2_to64_rest();
    if m < double::EXPONENT_STEP {
        assert(m * pow2(0) == m) by (nonlinear_arith)
            requires
                pow2(0) == 1,
        ;
        (m, 0)
    } else {
        (
            (double::EXPONENT_STEP + m % (double::EXPONENT_STEP as nat)) as nat,
            (m / (double::EXPONENT_STEP as nat) - 1) as nat,
        )
    }
}

/// A number lies far from infinity.
proof fn lemma_finite_units(a: Double)
    requires
        !a.is_nan_spec(),
    ensures
        a.is_infinite_spec() ==> a.units() == pow2(2098) || a.units() == -(pow2(2098) as int),
        a.is_infinite_spec() ==> (a.units() < 0 <==> a.is_negative_spec()),
        !a.is_infinite_spec() ==> -(pow2(2098) - pow2(2045)) <= a.units() <= pow2(2098) - pow2(
            2045,
        ),
        pow2(2098) > 0,
        pow2(2045) > pow2(1075),
        pow2(1075) > pow2(1023),
        pow2(1023) == 2 * pow2(1022),
        pow2(1022) > pow2(970),
        pow2(970) == 2 * pow2(969),
        pow2(969) > 0,
        pow2(2098) > pow2(2045),
{
    lemma2_to64();
    lemma2_to64_rest();
    lemma_pow2_pos(2098);
    lemma_pow2_pos(969);
    lemma_pow2_strictly_increases(1075, 2045);
    lemma_pow2_strictly_increases(1023, 1075);
    lemma_pow2_unfold(1023);
    lemma_pow2_strictly_increases(970, 1022);
    lemma_pow2_unfold(970);
    lemma_pow2_strictly_increases(2045, 2098);
    lemma_pow2_adds(52, 2046);
    lemma_pow2_adds(53, 2045);
    assert(double::scaled(0x7ff0_0000_0000_0000) == pow2(52) * pow2(2046));
    let last: nat = 0x7fef_ffff_ffff_ffff;
    assert(double::scaled(last) == 0x1f_ffff_ffff_ffff * pow2(2045));
    assert(0x1f_ffff_ffff_ffff * pow2(2045) == pow2(53) * pow2(2045) - pow2(2045))
        by (nonlinear_arith)
        requires
            pow2(53) == 0x20_0000_0000_0000,
    ;
    let m = a.magnitude_bits();
    if m < last {
        double::lemma_scaled_monotonic(m, last);
    }
}

/// Two numbers differ exactly where they lie further apart than the distance from one to the next larger
/// number, the half of its last place included, in whichever direction.
pub proof fn law_differs(a: Double, b: Double)
    ensures
        !a.is_nan_spec() && !b.is_nan_spec() ==> (a.differs_spec(b) <==> a.units() - b.units()
            > pow2(1022) + pow2(969) || b.units() - a.units() > pow2(1022) + pow2(969)),
        a.is_nan_spec() || b.is_nan_spec() ==> !a.differs_spec(b),
        a.differs_spec(b) == b.differs_spec(a),
        a.differs_spec(b) ==> a != b,
{
    lemma_differs(a, b);
    lemma_differs(b, a);
    lemma_pow2_pos(1022);
}

proof fn lemma_differs(a: Double, b: Double)
    ensures
        !a.is_nan_spec() && !b.is_nan_spec() ==> (a.differs_spec(b) <==> a.units() - b.units()
            > pow2(1022) + pow2(969) || b.units() - a.units() > pow2(1022) + pow2(969)),
        a.is_nan_spec() || b.is_nan_spec() ==> !a.differs_spec(b),
{
    reveal(Double::differs_spec);
    if !a.is_nan_spec() && !b.is_nan_spec() {
        lemma_constants();
        lemma_finite_units(a);
        lemma_finite_units(b);
        lemma2_to64();
    lemma2_to64_rest();
        lemma_pow2_adds(1022, 52);
        lemma_pow2_adds(52, 970);
        let e = pow2(1022);
        assert(epsilon().units() == e) by (nonlinear_arith)
            requires
                epsilon().units() * pow2(52) == e * pow2(52),
                pow2(52) > 0,
        ;
        if !a.is_infinite_spec() && !b.is_infinite_spec() {
            let x = a.units() - b.units();
            let y: nat = if x < 0 {
                (-x) as nat
            } else {
                x as nat
            };
            assert(rounding::nearest(y, 1) > e <==> y > e + pow2(969)) by {
                lemma_threshold(y);
            }
        }
    }
}

/// Where rounding goes beyond the distance from one to the next larger number.
proof fn lemma_threshold(y: nat)
    ensures
        rounding::nearest(y, 1) > pow2(1022) <==> y > pow2(1022) + pow2(969),
{
    lemma2_to64();
    lemma2_to64_rest();
    lemma_pow2_adds(52, 970);
    lemma_pow2_unfold(970);
    lemma_pow2_pos(969);
    let p = pow2(970);
    let e = pow2(1022);
    assert(e == 0x10_0000_0000_0000 * p);
    if y <= e {
        rounding::lemma_nearest_exact(0x10_0000_0000_0000, 970);
        rounding::law_nearest_keeps_order(y, e);
    } else if y < e + p {
        rounding::lemma_nearest(y, 1, 970, 0x10_0000_0000_0000, (y - e) as nat);
    } else {
        rounding::lemma_nearest_exact(0x10_0000_0000_0001, 970);
        rounding::law_nearest_keeps_order(0x10_0000_0000_0001 * p, y);
    }
}

/// A number is above another by more than a step of at most two: surely not where the distance is no
/// longer than the step, and surely where it is longer by one part in `2^52`.
pub proof fn law_exceeds(a: Double, b: Double, step: Double)
    requires
        !a.is_nan_spec(),
        !b.is_nan_spec(),
        !step.is_nan_spec(),
        0 < step.units() <= 2 * pow2(1074),
    ensures
        a.units() - b.units() <= step.units() ==> !a.exceeds_spec(b, step),
        (a.units() - b.units() - step.units()) * 0x10_0000_0000_0000 >= step.units()
            ==> a.exceeds_spec(b, step),
{
    lemma_finite_units(a);
    lemma_finite_units(b);
    lemma_pow2_unfold(1075);
    lemma2_to64();
    lemma2_to64_rest();
    let x = a.units() - b.units();
    let s = step.units() as nat;
    let (h, e) = lemma_scaled_form(step.magnitude_bits());
    let p = pow2(e);
    lemma_pow2_pos(e);
    assert(s == h * p);
    rounding::lemma_nearest_exact(h, e);
    if !a.is_infinite_spec() && !b.is_infinite_spec() && x >= 0 {
        if x <= s {
            rounding::law_nearest_keeps_order(x as nat, s);
        }
        if (x - s) * 0x10_0000_0000_0000 >= s {
            assert(x - s >= p) by (nonlinear_arith)
                requires
                    (x - s) * 0x10_0000_0000_0000 >= s,
                    s == h * p,
                    s > 0,
                    p > 0,
                    h >= 0x10_0000_0000_0000 || p == 1,
            ;
            let next = (h + 1) * p;
            assert(next == s + p) by (nonlinear_arith)
                requires
                    next == (h + 1) * p,
                    s == h * p,
            ;
            if h + 1 < 0x20_0000_0000_0000 {
                rounding::lemma_nearest_exact(h + 1, e);
            } else {
                lemma_pow2_unfold(e + 1);
                assert(next == 0x10_0000_0000_0000 * pow2(e + 1)) by (nonlinear_arith)
                    requires
                        next == 0x20_0000_0000_0000 * p,
                        pow2(e + 1) == 2 * p,
                ;
                rounding::lemma_nearest_exact(0x10_0000_0000_0000, e + 1);
            }
            rounding::law_nearest_keeps_order(next, x as nat);
        }
    }
}

} // verus!
