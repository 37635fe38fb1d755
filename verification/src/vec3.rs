//! The three-component shape.

use crate::scalar::{Scalar, ONE_BITS};
use core::cmp::Ordering;
use core::ops::Neg;
use vstd::prelude::*;

verus! {

/// A vector of three components, `x`, `y` and `z`, in that order.
#[derive(Clone, Copy, Debug)]
pub struct Vec3 {
    pub x: Scalar,
    pub y: Scalar,
    pub z: Scalar,
}

impl Vec3 {
    /// The vector whose components have the given encodings.
    pub open spec fn of_bits(x: u32, y: u32, z: u32) -> Vec3 {
        Vec3 {
            x: Scalar { bits: x },
            y: Scalar { bits: y },
            z: Scalar { bits: z },
        }
    }

    /// The vector that holds `s` in every component.
    pub open spec fn splat(s: Scalar) -> Vec3 {
        Vec3 { x: s, y: s, z: s }
    }

    /// `r` is an outcome of applying `f` to each component of `self`.
    pub open spec fn maps_to<F: Fn(Scalar) -> Scalar>(self, f: F, r: Vec3) -> bool {
        &&& f.ensures((self.x,), r.x)
        &&& f.ensures((self.y,), r.y)
        &&& f.ensures((self.z,), r.z)
    }

    /// `r` is an outcome of applying `f` to each pair of components of the
    /// same name, the one of `self` first.
    pub open spec fn zips_to<F: Fn(Scalar, Scalar) -> Scalar>(
        self,
        rhs: Vec3,
        f: F,
        r: Vec3,
    ) -> bool {
        &&& f.ensures((self.x, rhs.x), r.x)
        &&& f.ensures((self.y, rhs.y), r.y)
        &&& f.ensures((self.z, rhs.z), r.z)
    }

    /// `r` is an outcome of applying `f` to each component of `self` paired
    /// with the one scalar `rhs`.
    pub open spec fn zips_with_scalar_to<F: Fn(Scalar, Scalar) -> Scalar>(
        self,
        rhs: Scalar,
        f: F,
        r: Vec3,
    ) -> bool {
        &&& f.ensures((self.x, rhs), r.x)
        &&& f.ensures((self.y, rhs), r.y)
        &&& f.ensures((self.z, rhs), r.z)
    }

    /// `r` is an outcome of feeding the components to `f` in order, starting
    /// from `init` and handing each call the result of the one before.
    pub open spec fn folds_to<T, F: Fn(T, Scalar) -> T>(self, init: T, f: F, r: T) -> bool {
        exists|a: T, b: T|
            {
                &&& f.ensures((init, self.x), a)
                &&& #[trigger] f.ensures((a, self.y), b)
                &&& f.ensures((b, self.z), r)
            }
    }

    /// Whether `f` may be called at every step of a fold from `init`.
    pub open spec fn foldable<T, F: Fn(T, Scalar) -> T>(self, init: T, f: F) -> bool {
        &&& f.requires((init, self.x))
        &&& forall|a: T| #[trigger] f.ensures((init, self.x), a) ==> f.requires((a, self.y))
        &&& forall|a: T, b: T|
            f.ensures((init, self.x), a)
                && #[trigger] f.ensures((a, self.y), b)
                ==> f.requires((b, self.z))
    }

    /// Componentwise numeric equality.
    pub open spec fn same_numbers(self, other: Vec3) -> bool {
        &&& self.x.same_number(other.x)
        &&& self.y.same_number(other.y)
        &&& self.z.same_number(other.z)
    }

    /// The order of the first pair of components that is not equal, or of
    /// the last pair.
    pub open spec fn lexical_order(self, other: Vec3) -> Option<Ordering> {
        match self.x.number_order(other.x) {
            Some(Ordering::Equal) => match self.y.number_order(other.y) {
                Some(Ordering::Equal) => self.z.number_order(other.z),
                o => o,
            },
            o => o,
        }
    }

    /// Each component with its sign changed.
    pub open spec fn negated(self) -> Vec3 {
        Vec3 {
            x: self.x.negated(),
            y: self.y.negated(),
            z: self.z.negated(),
        }
    }

    /// Whether any component is a NaN.
    pub open spec fn has_nan(self) -> bool {
        self.x.is_nan() || self.y.is_nan() || self.z.is_nan()
    }

    /// The vector of the given components.
    pub fn new(x: Scalar, y: Scalar, z: Scalar) -> (r: Vec3)
        ensures
            r.x == x,
            r.y == y,
            r.z == z,
    {
        Vec3 { x, y, z }
    }

    /// Every component positive zero.
    pub fn zero() -> (r: Vec3)
        ensures
            r == Vec3::of_bits(0, 0, 0),
    {
        Vec3 { x: Scalar::zero(), y: Scalar::zero(), z: Scalar::zero() }
    }

    /// Every component one.
    pub fn one() -> (r: Vec3)
        ensures
            r == Vec3::of_bits(ONE_BITS, ONE_BITS, ONE_BITS),
    {
        Vec3 { x: Scalar::one(), y: Scalar::one(), z: Scalar::one() }
    }

    /// One along `x`, zero elsewhere.
    pub fn unit_x() -> (r: Vec3)
        ensures
            r == Vec3::of_bits(ONE_BITS, 0, 0),
    {
        Vec3::new(Scalar::one(), Scalar::zero(), Scalar::zero())
    }

    /// One along `y`, zero elsewhere.
    pub fn unit_y() -> (r: Vec3)
        ensures
            r == Vec3::of_bits(0, ONE_BITS, 0),
    {
        Vec3::new(Scalar::zero(), Scalar::one(), Scalar::zero())
    }

    /// One along `z`, zero elsewhere.
    pub fn unit_z() -> (r: Vec3)
        ensures
            r == Vec3::of_bits(0, 0, ONE_BITS),
    {
        Vec3::new(Scalar::zero(), Scalar::zero(), Scalar::one())
    }

    /// Applies `f` to each component.
    pub fn map<F: Fn(Scalar) -> Scalar>(self, f: F) -> (r: Vec3)
        requires
            f.requires((self.x,)),
            f.requires((self.y,)),
            f.requires((self.z,)),
        ensures
            self.maps_to(f, r),
    {
        let x = f(self.x);
        let y = f(self.y);
        let z = f(self.z);
        Vec3::new(x, y, z)
    }

    /// Applies `f` to each pair of components of the same name.
    pub fn zip_with<F: Fn(Scalar, Scalar) -> Scalar>(self, rhs: Vec3, f: F) -> (r: Vec3)
        requires
            f.requires((self.x, rhs.x)),
            f.requires((self.y, rhs.y)),
            f.requires((self.z, rhs.z)),
        ensures
            self.zips_to(rhs, f, r),
    {
        let x = f(self.x, rhs.x);
        let y = f(self.y, rhs.y);
        let z = f(self.z, rhs.z);
        Vec3::new(x, y, z)
    }

    /// Applies `f` to each component and the scalar `rhs`.
    pub fn zip_with_scalar<F: Fn(Scalar, Scalar) -> Scalar>(self, rhs: Scalar, f: F) -> (r: Vec3)
        requires
            f.requires((self.x, rhs)),
            f.requires((self.y, rhs)),
            f.requires((self.z, rhs)),
        ensures
            self.zips_with_scalar_to(rhs, f, r),
    {
        let x = f(self.x, rhs);
        let y = f(self.y, rhs);
        let z = f(self.z, rhs);
        Vec3::new(x, y, z)
    }

    /// Reduces the components with `f`, from `init`, `x` first.
    pub fn fold<T, F: Fn(T, Scalar) -> T>(self, init: T, f: F) -> (r: T)
        requires
            self.foldable(init, f),
        ensures
            self.folds_to(init, f, r),
    {
        let acc = init;
        let acc = f(acc, self.x);
        let acc = f(acc, self.y);
        let acc = f(acc, self.z);
        acc
    }
}

impl Default for Vec3 {
    fn default() -> (r: Vec3)
        ensures
            r == Vec3::of_bits(0, 0, 0),
    {
        Vec3::zero()
    }
}

impl Neg for Vec3 {
    type Output = Vec3;

    /// Negates each component.
    fn neg(self) -> (r: Vec3) {
        let negate = |c: Scalar| -> (n: Scalar)
            ensures
                n == c.negated(),
            { c.neg() };
        self.map(negate)
    }
}

impl vstd::std_specs::ops::NegSpecImpl for Vec3 {
    open spec fn obeys_neg_spec() -> bool {
        true
    }

    open spec fn neg_req(self) -> bool {
        true
    }

    open spec fn neg_spec(self) -> Vec3 {
        self.negated()
    }
}

impl PartialEq for Vec3 {
    fn eq(&self, other: &Vec3) -> (r: bool) {
        self.x == other.x && self.y == other.y && self.z == other.z
    }
}

impl vstd::std_specs::cmp::PartialEqSpecImpl for Vec3 {
    open spec fn obeys_eq_spec() -> bool {
        true
    }

    open spec fn eq_spec(&self, other: &Vec3) -> bool {
        self.same_numbers(*other)
    }
}

impl PartialOrd for Vec3 {
    fn partial_cmp(&self, other: &Vec3) -> (r: Option<Ordering>) {
        match self.x.partial_cmp(&other.x) {
            Some(Ordering::Equal) => match self.y.partial_cmp(&other.y) {
                Some(Ordering::Equal) => self.z.partial_cmp(&other.z),
                o => o,
            },
            o => o,
        }
    }
}

impl vstd::std_specs::cmp::PartialOrdSpecImpl for Vec3 {
    open spec fn obeys_partial_cmp_spec() -> bool {
        true
    }

    open spec fn partial_cmp_spec(&self, other: &Vec3) -> Option<Ordering> {
        self.lexical_order(*other)
    }
}

/// Zipping with a scalar is mapping with the function that holds the scalar
/// fixed: where `g` at `c` has the outcomes of `f` at `(c, s)`, both give the
/// same vectors.
pub proof fn lemma_zip_with_scalar_is_map<F: Fn(Scalar, Scalar) -> Scalar, G: Fn(Scalar) -> Scalar>(
    v: Vec3,
    s: Scalar,
    f: F,
    g: G,
    r: Vec3,
)
    requires
        forall|c: Scalar, y: Scalar| g.ensures((c,), y) <==> f.ensures((c, s), y),
    ensures
        v.zips_with_scalar_to(s, f, r) <==> v.maps_to(g, r),
{
}

/// Zipping with a scalar is zipping with the vector that holds the scalar in
/// every component.
pub proof fn lemma_zip_with_scalar_is_broadcast<F: Fn(Scalar, Scalar) -> Scalar>(
    v: Vec3,
    s: Scalar,
    f: F,
    r: Vec3,
)
    ensures
        v.zips_with_scalar_to(s, f, r) <==> v.zips_to(Vec3::splat(s), f, r),
{
}

/// Zipping with a function that gives the same for its arguments in either
/// order gives the same for the two vectors in either order.
pub proof fn lemma_zip_with_symmetric<F: Fn(Scalar, Scalar) -> Scalar>(
    a: Vec3,
    b: Vec3,
    f: F,
    r: Vec3,
)
    requires
        forall|p: Scalar, q: Scalar, y: Scalar| f.ensures((p, q), y) <==> f.ensures((q, p), y),
    ensures
        a.zips_to(b, f, r) <==> b.zips_to(a, f, r),
{
}

/// A vector with a NaN among its components equals no vector, itself
/// included, and is ordered against none as equal.
pub proof fn lemma_nan_equals_nothing(a: Vec3, b: Vec3)
    requires
        a.has_nan(),
    ensures
        !a.same_numbers(a),
        !a.same_numbers(b),
        !b.same_numbers(a),
        a.lexical_order(b) != Some(Ordering::Equal),
{
}

/// Equality is symmetric and transitive, and a vector equals itself exactly
/// when none of its components is a NaN.
pub proof fn lemma_equality_laws(a: Vec3, b: Vec3, c: Vec3)
    ensures
        a.same_numbers(a) <==> !a.has_nan(),
        a.same_numbers(b) <==> b.same_numbers(a),
        a.same_numbers(b) && b.same_numbers(c) ==> a.same_numbers(c),
{
}

/// The order is a partial one: it agrees with equality, turns round when its
/// sides are exchanged, and is transitive.
pub proof fn lemma_order_laws(a: Vec3, b: Vec3, c: Vec3)
    ensures
        a.lexical_order(b) == Some(Ordering::Equal) <==> a.same_numbers(b),
        a.lexical_order(b) == Some(Ordering::Less) <==> b.lexical_order(a) == Some(
            Ordering::Greater,
        ),
        a.lexical_order(b) == Some(Ordering::Less) && b.lexical_order(c) == Some(Ordering::Less)
            ==> a.lexical_order(c) == Some(Ordering::Less),
{
}

/// Negating twice gives the vector back, bit for bit.
pub proof fn lemma_neg_twice(a: Vec3)
    ensures
        a.negated().negated() == a,
{
}

} // verus!
