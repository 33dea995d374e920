//! Reading whole percents out of a percentage that is carried as the bit
//! pattern of a double-precision number.

use vstd::prelude::*;
use vstd::arithmetic::div_mod::lemma_div_denominator;
use crate::types::Percent;

verus! {

/// Two to the power `n`.
pub open spec fn two_to(n: nat) -> nat
    decreases n,
{
    if n == 0 {
        1
    } else {
        2 * two_to((n - 1) as nat)
    }
}

/// The implicit leading bit of a normal number's significand.
pub const HIDDEN_BIT: u64 = 0x10_0000_0000_0000;

/// The sign bit.
pub const SIGN_BIT: u64 = 0x8000_0000_0000_0000;

/// The exponent field of one.
pub const EXPONENT_BIAS: u64 = 1023;

/// The exponent field from which the significand is a whole number.
pub const EXPONENT_WHOLE: u64 = 1075;

/// The exponent field from which the number no longer fits in 64 bits.
pub const EXPONENT_TOO_LARGE: u64 = 1087;

/// The exponent field of the infinities and of what is not a number.
pub const EXPONENT_SPECIAL: u64 = 0x7ff;

impl Percent {
    /// Whether the sign bit is set.
    pub open spec fn negative(self) -> bool {
        self.bits >= SIGN_BIT
    }

    /// The exponent field.
    pub open spec fn exponent(self) -> int {
        (self.bits as int / HIDDEN_BIT as int) % 0x800
    }

    /// The fraction field.
    pub open spec fn fraction(self) -> int {
        self.bits as int % HIDDEN_BIT as int
    }

    /// The percentage with its fraction cut off, held to the range of
    /// `u64`: nothing negative, nothing that is not a number, and nothing
    /// below one counts; what is too large counts as the largest value.
    pub open spec fn whole_spec(self) -> int {
        if self.negative() {
            0
        } else if self.exponent() == EXPONENT_SPECIAL {
            if self.fraction() == 0 {
                u64::MAX as int
            } else {
                0
            }
        } else if self.exponent() < EXPONENT_BIAS {
            0
        } else if self.exponent() >= EXPONENT_TOO_LARGE {
            u64::MAX as int
        } else if self.exponent() >= EXPONENT_WHOLE {
            (HIDDEN_BIT + self.fraction()) * two_to((self.exponent() - EXPONENT_WHOLE) as nat)
        } else {
            (HIDDEN_BIT + self.fraction()) / (two_to((EXPONENT_WHOLE - self.exponent()) as nat) as int)
        }
    }

    /// The whole percents in the percentage.
    pub fn whole(&self) -> (n: u64)
        ensures
            n == self.whole_spec(),
    {
        let bits = self.bits;
        if bits >= SIGN_BIT {
            return 0;
        }
        let exponent: u64 = (bits / HIDDEN_BIT) % 0x800;
        let fraction: u64 = bits % HIDDEN_BIT;
        if exponent == EXPONENT_SPECIAL {
            return if fraction == 0 {
                u64::MAX
            } else {
                0
            };
        }
        if exponent < EXPONENT_BIAS {
            return 0;
        }
        if exponent >= EXPONENT_TOO_LARGE {
            return u64::MAX;
        }
        let significand: u64 = HIDDEN_BIT + fraction;
        let mut value: u64 = significand;
        let mut k: u64 = 0;
        if exponent >= EXPONENT_WHOLE {
            let steps: u64 = exponent - EXPONENT_WHOLE;
            assert(two_to(11) == 2048) by {
                reveal_with_fuel(two_to, 12);
            }
            assert(value * two_to(11) < 0x1_0000_0000_0000_0000);
            assert(value == significand * two_to(0)) by (nonlinear_arith)
                requires
                    value == significand,
                    two_to(0) == 1,
            ;
            while k < steps
                invariant
                    k <= steps <= 11,
                    value == significand * two_to(k as nat),
                    value * two_to((11 - k) as nat) < 0x1_0000_0000_0000_0000,
                decreases steps - k,
            {
                let ghost room = two_to((11 - k - 1) as nat) as int;
                assert(value * (2 * room) == (value * 2) * room) by (nonlinear_arith);
                assert(room >= 1) by {
                    lemma_two_to_positive((11 - k - 1) as nat);
                }
                assert(value * 2 <= (value * 2) * room) by (nonlinear_arith)
                    requires
                        room >= 1,
                        value >= 0,
                ;
                assert(significand * (2 * two_to(k as nat)) == (significand * two_to(k as nat))
                    * 2) by (nonlinear_arith);
                value = value * 2;
                k = k + 1;
            }
        } else {
            let steps: u64 = EXPONENT_WHOLE - exponent;
            while k < steps
                invariant
                    k <= steps,
                    value == significand as int / (two_to(k as nat) as int),
                decreases steps - k,
            {
                proof {
                    lemma_two_to_positive(k as nat);
                    lemma_div_denominator(significand as int, two_to(k as nat) as int, 2);
                }
                value = value / 2;
                k = k + 1;
            }
        }
        value
    }
}

/// A power of two is at least one.
pub proof fn lemma_two_to_positive(n: nat)
    ensures
        two_to(n) >= 1,
    decreases n,
{
    if n > 0 {
        lemma_two_to_positive((n - 1) as nat);
    }
}

} // verus!
