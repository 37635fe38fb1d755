//! The component type: an IEEE-754 binary32 number, held by its encoding.

use core::cmp::Ordering;
use vstd::prelude::*;

verus! {

/// The encoding's sign bit.
pub const SIGN_BIT: u32 = 0x8000_0000;

/// The encoding of positive infinity; every larger magnitude is a NaN.
pub const INFINITY_BITS: u32 = 0x7f80_0000;

/// The encoding of `1.0`.
pub const ONE_BITS: u32 = 0x3f80_0000;

/// A binary32 number as its 32 bits: sign, eight bits of exponent,
/// twenty-three bits of fraction, from the top down.
#[derive(Clone, Copy, Debug)]
pub struct Scalar {
    pub bits: u32,
}

impl Scalar {
    /// Whether the sign bit is set.
    pub open spec fn is_negative(self) -> bool {
        self.bits >= SIGN_BIT
    }

    /// The encoding with the sign bit cleared.
    pub open spec fn magnitude(self) -> int {
        if self.bits >= SIGN_BIT {
            self.bits - SIGN_BIT
        } else {
            self.bits as int
        }
    }

    /// Whether the encoding is a NaN: exponent all ones, fraction not zero.
    pub open spec fn is_nan(self) -> bool {
        self.magnitude() > INFINITY_BITS
    }

    /// Where a number that is not a NaN stands on the number line, as an
    /// integer that grows with the number. Both zeros stand at 0.
    pub open spec fn rank(self) -> int {
        if self.is_negative() {
            -self.magnitude()
        } else {
            self.magnitude()
        }
    }

    /// Numeric equality: no NaN equals anything, the two zeros are equal,
    /// and any other two numbers are equal when their encodings are.
    pub open spec fn same_number(self, other: Scalar) -> bool {
        !self.is_nan() && !other.is_nan() && self.rank() == other.rank()
    }

    /// Numeric order: none where either side is a NaN, else that of the
    /// two ranks.
    pub open spec fn number_order(self, other: Scalar) -> Option<Ordering> {
        if self.is_nan() || other.is_nan() {
            None
        } else if self.rank() < other.rank() {
            Some(Ordering::Less)
        } else if self.rank() == other.rank() {
            Some(Ordering::Equal)
        } else {
            Some(Ordering::Greater)
        }
    }

    /// The number of the same magnitude and the opposite sign. A NaN stays
    /// a NaN, with its fraction bits as they were.
    pub open spec fn negated(self) -> Scalar {
        if self.bits >= SIGN_BIT {
            Scalar { bits: (self.bits - SIGN_BIT) as u32 }
        } else {
            Scalar { bits: (self.bits + SIGN_BIT) as u32 }
        }
    }

    /// The number with the given encoding.
    pub fn from_bits(bits: u32) -> (r: Scalar)
        ensures
            r.bits == bits,
    {
        Scalar { bits }
    }

    /// The encoding.
    pub fn to_bits(self) -> (r: u32)
        ensures
            r == self.bits,
    {
        self.bits
    }

    /// Positive zero.
    pub fn zero() -> (r: Scalar)
        ensures
            r.bits == 0,
    {
        Scalar { bits: 0 }
    }

    /// The number one.
    pub fn one() -> (r: Scalar)
        ensures
            r.bits == ONE_BITS,
    {
        Scalar { bits: ONE_BITS }
    }

    /// Whether this is a NaN.
    pub fn is_nan_value(self) -> (r: bool)
        ensures
            r == self.is_nan(),
    {
        let m: u32 = if self.bits >= SIGN_BIT {
            self.bits - SIGN_BIT
        } else {
            self.bits
        };
        m > INFINITY_BITS
    }

}

impl core::ops::Neg for Scalar {
    type Output = Scalar;

    /// Flips the sign bit and nothing else.
    fn neg(self) -> (r: Scalar) {
        if self.bits >= SIGN_BIT {
            Scalar { bits: self.bits - SIGN_BIT }
        } else {
            Scalar { bits: self.bits + SIGN_BIT }
        }
    }
}

impl vstd::std_specs::ops::NegSpecImpl for Scalar {
    open spec fn obeys_neg_spec() -> bool {
        true
    }

    open spec fn neg_req(self) -> bool {
        true
    }

    open spec fn neg_spec(self) -> Scalar {
        self.negated()
    }
}

impl Default for Scalar {
    fn default() -> (r: Scalar)
        ensures
            r.bits == 0,
    {
        Scalar { bits: 0 }
    }
}

impl PartialEq for Scalar {
    fn eq(&self, other: &Scalar) -> (r: bool) {
        !self.is_nan_value() && !other.is_nan_value() && signed_rank(*self) == signed_rank(*other)
    }
}

impl vstd::std_specs::cmp::PartialEqSpecImpl for Scalar {
    open spec fn obeys_eq_spec() -> bool {
        true
    }

    open spec fn eq_spec(&self, other: &Scalar) -> bool {
        self.same_number(*other)
    }
}

impl PartialOrd for Scalar {
    fn partial_cmp(&self, other: &Scalar) -> (r: Option<Ordering>) {
        if self.is_nan_value() || other.is_nan_value() {
            None
        } else {
            let a: i64 = signed_rank(*self);
            let b: i64 = signed_rank(*other);
            if a < b {
                Some(Ordering::Less)
            } else if a == b {
                Some(Ordering::Equal)
            } else {
                Some(Ordering::Greater)
            }
        }
    }
}

impl vstd::std_specs::cmp::PartialOrdSpecImpl for Scalar {
    open spec fn obeys_partial_cmp_spec() -> bool {
        true
    }

    open spec fn partial_cmp_spec(&self, other: &Scalar) -> Option<Ordering> {
        self.number_order(*other)
    }
}

/// Negation changes the sign and keeps the magnitude, so it turns a number's
/// rank into its opposite, keeps a NaN a NaN, and undoes itself.
pub proof fn lemma_negated(s: Scalar)
    ensures
        s.negated().is_negative() != s.is_negative(),
        s.negated().magnitude() == s.magnitude(),
        s.negated().is_nan() == s.is_nan(),
        s.negated().rank() == -s.rank(),
        s.negated().negated() == s,
{
}

/// The arithmetic reading of the encoding above is the bitwise one: the
/// sign is the top bit, the magnitude the other thirty-one, and negation
/// flips the top bit.
pub proof fn lemma_bitwise_reading(s: Scalar)
    ensures
        s.is_negative() <==> s.bits & SIGN_BIT != 0,
        s.magnitude() == s.bits & 0x7fff_ffff,
        s.negated().bits == s.bits ^ SIGN_BIT,
{
    let b = s.bits;
    assert(b >= 0x8000_0000u32 <==> b & 0x8000_0000u32 != 0) by (bit_vector);
    assert(b >= 0x8000_0000u32 ==> b & 0x7fff_ffffu32 == (b - 0x8000_0000u32) as u32
        && b ^ 0x8000_0000u32 == (b - 0x8000_0000u32) as u32) by (bit_vector);
    assert(b < 0x8000_0000u32 ==> b & 0x7fff_ffffu32 == b && b ^ 0x8000_0000u32 == (b
        + 0x8000_0000u32) as u32) by (bit_vector);
}

/// Numeric equality is symmetric and transitive, and a number equals itself
/// exactly when it is not a NaN.
pub proof fn lemma_equality_laws(a: Scalar, b: Scalar, c: Scalar)
    ensures
        a.same_number(a) <==> !a.is_nan(),
        a.same_number(b) <==> b.same_number(a),
        a.same_number(b) && b.same_number(c) ==> a.same_number(c),
{
}

/// The numeric order is a partial one: it is undefined exactly where a NaN
/// is involved, agrees with equality, turns round when its sides are
/// exchanged, and is transitive.
pub proof fn lemma_order_laws(a: Scalar, b: Scalar, c: Scalar)
    ensures
        a.number_order(b) is None <==> a.is_nan() || b.is_nan(),
        a.number_order(b) == Some(Ordering::Equal) <==> a.same_number(b),
        a.number_order(b) == Some(Ordering::Less) <==> b.number_order(a) == Some(
            Ordering::Greater,
        ),
        a.number_order(b) == Some(Ordering::Less) && b.number_order(c) == Some(Ordering::Less)
            ==> a.number_order(c) == Some(Ordering::Less),
{
}

/// The rank of a number as a machine integer.
fn signed_rank(s: Scalar) -> (r: i64)
    ensures
        r == s.rank(),
{
    if s.bits >= SIGN_BIT {
        let m: u32 = s.bits - SIGN_BIT;
        let wide: i64 = m as i64;
        -wide
    } else {
        s.bits as i64
    }
}

} // verus!
