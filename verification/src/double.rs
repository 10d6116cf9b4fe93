//! Binary64 numbers as plain values.
//!
//! Times, rates and volumes reach the library as IEEE 754 binary64 numbers. `Double` holds such a
//! number by its bit pattern, and the operations below work on the pattern with integers only.
use vstd::arithmetic::div_mod::*;
use vstd::arithmetic::mul::*;
use vstd::arithmetic::power2::*;
use vstd::prelude::*;

verus! {

/// The weight of the sign bit.
pub const SIGN_BIT: u64 = 0x8000_0000_0000_0000;

/// The magnitude bits of infinity; larger magnitude bits are not numbers.
pub const INFINITY_BITS: u64 = 0x7ff0_0000_0000_0000;

/// The weight of the lowest exponent bit.
pub const EXPONENT_STEP: u64 = 0x10_0000_0000_0000;

/// A binary64 number. Two values are equal when their bit patterns are; `equals` compares the
/// numbers.
#[derive(Clone, Copy, Debug, PartialEq, Eq, Structural)]
pub struct Double {
    pub bits: u64,
}

/// The number of units of the magnitude bits `m`: an exponent field of zero holds the number of
/// units as it is, any other field adds a leading bit and shifts.
pub open spec fn scaled(m: nat) -> nat {
    if m < EXPONENT_STEP {
        m
    } else {
        (EXPONENT_STEP + m % (EXPONENT_STEP as nat)) as nat * pow2(
            (m / (EXPONENT_STEP as nat) - 1) as nat,
        )
    }
}

impl Double {
    pub open spec fn is_negative_spec(self) -> bool {
        self.bits >= SIGN_BIT
    }

    pub open spec fn magnitude_bits(self) -> nat {
        (self.bits % SIGN_BIT) as nat
    }

    pub open spec fn is_nan_spec(self) -> bool {
        self.magnitude_bits() > INFINITY_BITS
    }

    pub open spec fn is_infinite_spec(self) -> bool {
        self.magnitude_bits() == INFINITY_BITS
    }

    /// The number as a count of units. An infinity counts as the first magnitude that is too large
    /// for the format.
    pub open spec fn units(self) -> int {
        if self.is_negative_spec() {
            -(scaled(self.magnitude_bits()) as int)
        } else {
            scaled(self.magnitude_bits()) as int
        }
    }

    /// Whether this number is less than `other`: never, if one of them is not a number.
    pub open spec fn lt(self, other: Double) -> bool {
        !self.is_nan_spec() && !other.is_nan_spec() && self.units() < other.units()
    }

    /// Whether this number is at most `other`: never, if one of them is not a number.
    pub open spec fn le(self, other: Double) -> bool {
        !self.is_nan_spec() && !other.is_nan_spec() && self.units() <= other.units()
    }

    /// Whether the numbers are equal: never, if one of them is not a number.
    pub open spec fn same(self, other: Double) -> bool {
        !self.is_nan_spec() && !other.is_nan_spec() && self.units() == other.units()
    }
}

/// The order of numbers is the order of their magnitude bits.
pub proof fn lemma_scaled_monotonic(a: nat, b: nat)
    requires
        a < b,
    ensures
        scaled(a) < scaled(b),
{
    let s = EXPONENT_STEP as nat;
    lemma2_to64();
    if b >= EXPONENT_STEP {
        let eb = b / s;
        let fb = b % s;
        let pb = pow2((eb - 1) as nat);
        lemma_pow2_pos((eb - 1) as nat);
        assert((s + fb) * pb >= s * pb) by (nonlinear_arith)
            requires
                fb >= 0,
                pb > 0,
        ;
        if a < EXPONENT_STEP {
            assert(s * pb >= s) by (nonlinear_arith)
                requires
                    pb > 0,
            ;
        } else {
            let ea = a / s;
            let fa = a % s;
            let pa = pow2((ea - 1) as nat);
            lemma_pow2_pos((ea - 1) as nat);
            if ea == eb {
                assert((s + fa) * pa < (s + fb) * pa) by (nonlinear_arith)
                    requires
                        fa < fb,
                        pa > 0,
                ;
            } else {
                assert(ea < eb);
                lemma_pow2_unfold(ea);
                if ea < eb - 1 {
                    lemma_pow2_strictly_increases(ea, (eb - 1) as nat);
                }
                assert((s + fa) * pa < s * pb) by (nonlinear_arith)
                    requires
                        fa < s,
                        pa > 0,
                        2 * pa <= pb,
                        s > 0,
                ;
            }
        }
    }
}

pub proof fn lemma_scaled_injective(a: nat, b: nat)
    ensures
        a < b <==> scaled(a) < scaled(b),
        a == b <==> scaled(a) == scaled(b),
{
    if a < b {
        lemma_scaled_monotonic(a, b);
    } else if b < a {
        lemma_scaled_monotonic(b, a);
    }
}

impl Double {
    pub fn is_nan(self) -> (r: bool)
        ensures
            r == self.is_nan_spec(),
    {
        self.bits % SIGN_BIT > INFINITY_BITS
    }

    /// Whether this number is less than `other`.
    pub fn less_than(self, other: Double) -> (r: bool)
        ensures
            r == self.lt(other),
    {
        if self.is_nan() || other.is_nan() {
            return false;
        }
        let a = self.bits % SIGN_BIT;
        let b = other.bits % SIGN_BIT;
        proof {
            lemma_scaled_injective(a as nat, b as nat);
            lemma_scaled_injective(0, a as nat);
            lemma_scaled_injective(0, b as nat);
        }
        if self.bits < SIGN_BIT {
            other.bits < SIGN_BIT && a < b
        } else if other.bits < SIGN_BIT {
            a > 0 || b > 0
        } else {
            b < a
        }
    }

    /// Whether this number is at most `other`.
    pub fn at_most(self, other: Double) -> (r: bool)
        ensures
            r == self.le(other),
    {
        !self.is_nan() && !other.is_nan() && !other.less_than(self)
    }

    /// Whether the numbers are equal.
    pub fn equals(self, other: Double) -> (r: bool)
        ensures
            r == self.same(other),
    {
        if self.is_nan() || other.is_nan() {
            return false;
        }
        let a = self.bits % SIGN_BIT;
        let b = other.bits % SIGN_BIT;
        proof {
            lemma_scaled_injective(a as nat, b as nat);
            lemma_scaled_injective(0, a as nat);
            lemma_scaled_injective(0, b as nat);
        }
        a == b && (a == 0 || (self.bits < SIGN_BIT) == (other.bits < SIGN_BIT))
    }
}

} // verus!
