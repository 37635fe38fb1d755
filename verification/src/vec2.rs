//! The two-component shape.

use crate::scalar::{Scalar, ONE_BITS};
use core::cmp::Ordering;
use core::ops::Neg;
use vstd::prelude::*;

verus! {

/// A vector of two components, `x` then `y`.
#[derive(Clone, Copy, Debug)]
pub struct Vec2 {
    pub x: Scalar,
    pub y: Scalar,
}

impl Vec2 {
    /// The vector whose components have the given encodings.
    pub open spec fn of_bits(x: u32, y: u32) -> Vec2 {
        Vec2 { x: Scalar { bits: x }, y: Scalar { bits: y } }
    }

    /// The vector that holds `s` in every component.
    pub open spec fn splat(s: Scalar) -> Vec2 {
        Vec2 { x: s, y: s }
    }

    /// `r` is an outcome of applying `f` to each component of `self`.
    pub open spec fn maps_to<F: Fn(Scalar) -> Scalar>(self, f: F, r: Vec2) -> bool {
        &&& f.ensures((self.x,), r.x)
        &&& f.ensures((self.y,), r.y)
    }

    /// `r` is an outcome of applying `f` to each pair of components of the
    /// same name, the one of `self` first.
    pub open spec fn zips_to<F: Fn(Scalar, Scalar) -> Scalar>(
        self,
        rhs: Vec2,
        f: F,
        r: Vec2,
    ) -> bool {
        &&& f.ensures((self.x, rhs.x), r.x)
        &&& f.ensures((self.y, rhs.y), r.y)
    }

    /// `r` is an outcome of applying `f` to each component of `self` paired
    /// with the one scalar `rhs`.
    pub open spec fn zips_with_scalar_to<F: Fn(Scalar, Scalar) -> Scalar>(
        self,
        rhs: Scalar,
        f: F,
        r: Vec2,
    ) -> bool {
        &&& f.ensures((self.x, rhs), r.x)
        &&& f.ensures((self.y, rhs), r.y)
    }

    /// `r` is an outcome of feeding the components to `f` in order, starting
    /// from `init` and handing each call the result of the one before.
    pub open spec fn folds_to<T, F: Fn(T, Scalar) -> T>(self, init: T, f: F, r: T) -> bool {
        exists|a: T| #[trigger] f.ensures((init, self.x), a) && f.ensures((a, self.y), r)
    }

    /// Whether `f` may be called at every step of a fold from `init`.
    pub open spec fn foldable<T, F: Fn(T, Scalar) -> T>(self, init: T, f: F) -> bool {
        &&& f.requires((init, self.x))
        &&& forall|a: T| #[trigger] f.ensures((init, self.x), a) ==> f.requires((a, self.y))
    }

    /// Componentwise numeric equality.
    pub open spec fn same_numbers(self, other: Vec2) -> bool {
        &&& self.x.same_number(other.x)
        &&& self.y.same_number(other.y)
    }

    /// The order of the first pair of components that is not equal, or of
    /// the last pair.
    pub open spec fn lexical_order(self, other: Vec2) -> Option<Ordering> {
        match self.x.number_order(other.x) {
            Some(Ordering::Equal) => self.y.number_order(other.y),
            o => o,
        }
    }

    /// Each component with its sign changed.
    pub open spec fn negated(self) -> Vec2 {
        Vec2 { x: self.x.negated(), y: self.y.negated() }
    }

    /// Whether any component is a NaN.
    pub open spec fn has_nan(self) -> bool {
        self.x.is_nan() || self.y.is_nan()
    }

    /// The vector of the given components.
    pub fn new(x: Scalar, y: Scalar) -> (r: Vec2)
        ensures
            r.x == x,
            r.y == y,
    {
        Vec2 { x, y }
    }

    /// Every component positive zero.
    pub fn zero() -> (r: Vec2)
        ensures
            r == Vec2::of_bits(0, 0),
    {
        Vec2 { x: Scalar::zero(), y: Scalar::zero() }
    }

    /// Every component one.
    pub fn one() -> (r: Vec2)
        ensures
            r == Vec2::of_bits(ONE_BITS, ONE_BITS),
    {
        Vec2 { x: Scalar::one(), y: Scalar::one() }
    }

    /// One along `x`, zero elsewhere.
    pub fn unit_x() -> (r: Vec2)
        ensures
            r == Vec2::of_bits(ONE_BITS, 0),
    {
        Vec2::new(Scalar::one(), Scalar::zero())
    }

    /// One along `y`, zero elsewhere.
    pub fn unit_y() -> (r: Vec2)
        ensures
            r == Vec2::of_bits(0, ONE_BITS),
    {
        Vec2::new(Scalar::zero(), Scalar::one())
    }

    /// Applies `f` to each component.
    pub fn map<F: Fn(Scalar) -> Scalar>(self, f: F) -> (r: Vec2)
        requires
            f.requires((self.x,)),
            f.requires((self.y,)),
        ensures
            self.maps_to(f, r),
    {
        let x = f(self.x);
        let y = f(self.y);
        Vec2::new(x, y)
    }

    /// Applies `f` to each pair of components of the same name.
    pub fn zip_with<F: Fn(Scalar, Scalar) -> Scalar>(self, rhs: Vec2, f: F) -> (r: Vec2)
        requires
            f.requires((self.x, rhs.x)),
            f.requires((self.y, rhs.y)),
        ensures
            self.zips_to(rhs, f, r),
    {
        let x = f(self.x, rhs.x);
        let y = f(self.y, rhs.y);
        Vec2::new(x, y)
    }

    /// Applies `f` to each component and the scalar `rhs`.
    pub fn zip_with_scalar<F: Fn(Scalar, Scalar) -> Scalar>(self, rhs: Scalar, f: F) -> (r: Vec2)
        requires
            f.requires((self.x, rhs)),
            f.requires((self.y, rhs)),
        ensures
            self.zips_with_scalar_to(rhs, f, r),
    {
        let x = f(self.x, rhs);
        let y = f(self.y, rhs);
        Vec2::new(x, y)
    }

    /// Reduces the components with `f`, from `init`, `x` first.
    pub fn fold<T, F: Fn(T, Scalar) -> T>(self, init: T, f: F) -> (r: T)
        requires
            self.foldable(init, f),
        ensures
            self.folds_to(init, f, r),
    {
        let acc = init;
        let acc = f(acc, self.x);
        let acc = f(acc, self.y);
        acc
    }
}

impl Default for Vec2 {
    fn default() -> (r: Vec2)
        ensures
            r == Vec2::of_bits(0, 0),
    {
        Vec2::zero()
    }
}

impl Neg for Vec2 {
    type Output = Vec2;

    /// Negates each component.
    fn neg(self) -> (r: Vec2) {
        let negate = |c: Scalar| -> (n: Scalar)
            ensures
                n == c.negated(),
            { c.neg() };
        self.map(negate)
    }
}

impl vstd::std_specs::ops::NegSpecImpl for Vec2 {
    open spec fn obeys_neg_spec() -> bool {
        true
    }

    open spec fn neg_req(self) -> bool {
        true
    }

    open spec fn neg_spec(self) -> Vec2 {
        self.negated()
    }
}

impl PartialEq for Vec2 {
    fn eq(&self, other: &Vec2) -> (r: bool) {
        self.x == other.x && self.y == other.y
    }
}

impl vstd::std_specs::cmp::PartialEqSpecImpl for Vec2 {
    open spec fn obeys_eq_spec() -> bool {
        true
    }

    open spec fn eq_spec(&self, other: &Vec2) -> bool {
        self.same_numbers(*other)
    }
}

impl PartialOrd for Vec2 {
    fn partial_cmp(&self, other: &Vec2) -> (r: Option<Ordering>) {
        match self.x.partial_cmp(&other.x) {
            Some(Ordering::Equal) => self.y.partial_cmp(&other.y),
            o => o,
        }
    }
}

impl vstd::std_specs::cmp::PartialOrdSpecImpl for Vec2 {
    open spec fn obeys_partial_cmp_spec() -> bool {
        true
    }

    open spec fn partial_cmp_spec(&self, other: &Vec2) -> Option<Ordering> {
        self.lexical_order(*other)
    }
}

/// Zipping with a scalar is mapping with the function that holds the scalar
/// fixed: where `g` at `c` has the outcomes of `f` at `(c, s)`, both give the
/// same vectors.
pub proof fn lemma_zip_with_scalar_is_map<F: Fn(Scalar, Scalar) -> Scalar, G: Fn(Scalar) -> Scalar>(
    v: Vec2,
    s: Scalar,
    f: F,
    g: G,
    r: Vec2,
)
    requires
        forall|c: Scalar, y: Scalar| g.ensures((c,), y) <==> f.ensures((c, s), y),
    ensures
        v.zips_with_scalar_to(s, f, r) <==> v.maps_to(g, r),
{
}

/// Zipping with a scalar is zipping with the vector that holds the scalar in
/// every component.
pub proof fn lemma_zip_with_scalar_is_broadcast<F: Fn(Scalar, Scalar) -> Scalar>(
    v: Vec2,
    s: Scalar,
    f: F,
    r: Vec2,
)
    ensures
        v.zips_with_scalar_to(s, f, r) <==> v.zips_to(Vec2::splat(s), f, r),
{
}

/// Zipping with a function that gives the same for its arguments in either
/// order gives the same for the two vectors in either order.
pub proof fn lemma_zip_with_symmetric<F: Fn(Scalar, Scalar) -> Scalar>(
    a: Vec2,
    b: Vec2,
    f: F,
    r: Vec2,
)
    requires
        forall|p: Scalar, q: Scalar, y: Scalar| f.ensures((p, q), y) <==> f.ensures((q, p), y),
    ensures
        a.zips_to(b, f, r) <==> b.zips_to(a, f, r),
{
}

/// A vector with a NaN among its components equals no vector, itself
/// included, and is ordered against none as equal.
pub proof fn lemma_nan_equals_nothing(a: Vec2, b: Vec2)
    requires
        a.has_nan(),
    ensures
        !a.same_numbers(a),
        !a.same_numbers(b),
        !b.same_numbers(a),
        a.lexical_order(b) != Some(Ordering::Equal),
{
}

/// Equality is symmetric and transitive, and a vector equals itself exactly
/// when none of its components is a NaN.
pub proof fn lemma_equality_laws(a: Vec2, b: Vec2, c: Vec2)
    ensures
        a.same_numbers(a) <==> !a.has_nan(),
        a.same_numbers(b) <==> b.same_numbers(a),
        a.same_numbers(b) && b.same_numbers(c) ==> a.same_numbers(c),
{
}

/// The order is a partial one: it agrees with equality, turns round when its
/// sides are exchanged, and is transitive.
pub proof fn lemma_order_laws(a: Vec2, b: Vec2, c: Vec2)
    ensures
        a.lexical_order(b) == Some(Ordering::Equal) <==> a.same_numbers(b),
        a.lexical_order(b) == Some(Ordering::Less) <==> b.lexical_order(a) == Some(
            Ordering::Greater,
        ),
        a.lexical_order(b) == Some(Ordering::Less) && b.lexical_order(c) == Some(Ordering::Less)
            ==> a.lexical_order(c) == Some(Ordering::Less),
{
}

/// Negating twice gives the vector back, bit for bit.
pub proof fn lemma_neg_twice(a: Vec2)
    ensures
        a.negated().negated() == a,
{
}

} // verus!
