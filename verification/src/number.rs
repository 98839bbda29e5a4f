//! Wrapping conversions, and double-precision numbers by their bit pattern.
//!
//! Difficulties and percentages are IEEE 754 doubles. Their order can be read off the bits, which
//! is all that the pool's rules need of them.

use vstd::prelude::*;

verus! {

/// The weight of the sign bit.
pub const SIGN: u64 = 0x8000_0000_0000_0000;

/// The bit pattern of positive infinity; greater magnitudes are not numbers.
pub const INFINITY: u64 = 0x7ff0_0000_0000_0000;

/// The low 64 bits of `n` as a signed number.
pub open spec fn wrapped(n: int) -> int {
    (n + 0x8000_0000_0000_0000) % 0x1_0000_0000_0000_0000 - 0x8000_0000_0000_0000
}

/// The low 64 bits of `n` as a signed number.
pub(crate) fn wrap_to_i64(n: u128) -> (w: i64)
    ensures
        w == wrapped(n as int),
{
    let low = (n % 0x1_0000_0000_0000_0000) as u64;
    if low < 0x8000_0000_0000_0000 {
        low as i64
    } else {
        (low - 0x8000_0000_0000_0000) as i64 + i64::MIN
    }
}

/// A double-precision number, given by its bits.
#[derive(Clone, Copy, Debug, PartialEq, Eq, Structural)]
pub struct Double {
    /// The IEEE 754 bit pattern.
    pub bits: u64,
}

impl Double {
    /// The bits without the sign.
    pub open spec fn magnitude(self) -> int {
        self.bits as int % SIGN as int
    }

    /// Whether the bits stand for no number.
    pub open spec fn is_nan(self) -> bool {
        self.magnitude() > INFINITY
    }

    /// The place of the number in the order of all numbers; both zeros have place zero.
    pub open spec fn rank(self) -> int {
        if self.bits < SIGN {
            self.magnitude()
        } else {
            -self.magnitude()
        }
    }

    /// Whether `self >= other` holds of the numbers; it never does if one of them is not a number.
    pub open spec fn is_at_least(self, other: Double) -> bool {
        !self.is_nan() && !other.is_nan() && self.rank() >= other.rank()
    }

    /// The number zero.
    pub fn zero() -> (number: Double)
        ensures
            number.bits == 0,
    {
        Double { bits: 0 }
    }

    /// Whether `self >= other`.
    pub fn at_least(self, other: Double) -> (holds: bool)
        ensures
            holds == self.is_at_least(other),
    {
        let a = self.bits % SIGN;
        let b = other.bits % SIGN;
        if a > INFINITY || b > INFINITY {
            return false;
        }
        if self.bits < SIGN {
            if other.bits < SIGN {
                a >= b
            } else {
                true
            }
        } else if other.bits < SIGN {
            a == 0 && b == 0
        } else {
            a <= b
        }
    }

    /// The greater of two numbers; the other one if one is not a number, and `self` if they are
    /// equal.
    pub open spec fn greater(self, other: Double) -> Double {
        if other.is_nan() || self.is_at_least(other) {
            self
        } else {
            other
        }
    }

    /// The greater of two numbers.
    pub fn max(self, other: Double) -> (number: Double)
        ensures
            number == self.greater(other),
    {
        if other.bits % SIGN > INFINITY || self.at_least(other) {
            self
        } else {
            other
        }
    }
}

/// Numbers are totally ordered.
pub proof fn doubles_are_totally_ordered(a: Double, b: Double)
    requires
        !a.is_nan(),
        !b.is_nan(),
    ensures
        a.is_at_least(b) || b.is_at_least(a),
        a.greater(b).is_at_least(a),
        a.greater(b).is_at_least(b),
{
}

/// A number that was wrapped differs from the given one by a multiple of two to the power of 64, and
/// lies in the range of a signed number.
pub proof fn wrapped_numbers_are_congruent(n: int)
    ensures
        -0x8000_0000_0000_0000 <= wrapped(n) < 0x8000_0000_0000_0000,
        (n - wrapped(n)) % 0x1_0000_0000_0000_0000 == 0,
        0 <= n < 0x8000_0000_0000_0000 ==> wrapped(n) == n,
{
}

/// Doubles without a sign are ordered as their bits, those with a sign the other way round, and any
/// with a sign is at most one without; what is not a number is not ordered.
pub proof fn doubles_are_ordered_by_their_bits(a: Double, b: Double)
    ensures
        ({
            let nan = |d: Double|
                0x7ff0_0000_0000_0000 < d.bits < 0x8000_0000_0000_0000 || d.bits
                    > 0xfff0_0000_0000_0000;
            &&& nan(a) || nan(b) ==> !a.is_at_least(b)
            &&& !nan(a) && !nan(b) && a.bits < 0x8000_0000_0000_0000 && b.bits
                < 0x8000_0000_0000_0000 ==> (a.is_at_least(b) <==> a.bits >= b.bits)
            &&& !nan(a) && !nan(b) && a.bits >= 0x8000_0000_0000_0000 && b.bits
                >= 0x8000_0000_0000_0000 ==> (a.is_at_least(b) <==> a.bits <= b.bits)
            &&& !nan(a) && !nan(b) && a.bits < 0x8000_0000_0000_0000 && b.bits
                >= 0x8000_0000_0000_0000 ==> a.is_at_least(b)
            &&& !nan(a) && !nan(b) && a.bits >= 0x8000_0000_0000_0000 && b.bits
                < 0x8000_0000_0000_0000 ==> (a.is_at_least(b) <==> a.bits
                == 0x8000_0000_0000_0000 && b.bits == 0)
        }),
{
}

/// The greater of two numbers is one of them, and at least each that is a number; of a number and
/// something that is none, it is the number.
pub proof fn the_greater_is_one_of_the_two(a: Double, b: Double)
    ensures
        a.greater(b) == a || a.greater(b) == b,
        !a.is_at_least(a) && b.is_at_least(b) ==> a.greater(b) == b,
        a.is_at_least(a) && !b.is_at_least(b) ==> a.greater(b) == a,
        a.is_at_least(a) && b.is_at_least(b) ==> a.greater(b).is_at_least(a) && a.greater(
            b,
        ).is_at_least(b),
        a.is_at_least(b) ==> a.greater(b) == a,
{
}

} // verus!
