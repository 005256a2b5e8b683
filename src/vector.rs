//! Points and vectors of the plane, with the few operations that the curves
//! need: sums, scaling, dot products, norms, the orthogonal to the right, and
//! angles between vectors. Each has a spec function of the same meaning, and
//! the executable one returns exactly what it gives.
use vstd::prelude::*;
use crate::scalar::Scalar;

verus! {

/// Absolute tolerance of rough equality where no other is given.
pub const ROUGH_NUMERATOR: i64 = 1;

pub const ROUGH_DENOMINATOR: i64 = 10_000_000;

#[derive(Clone, Copy, Debug)]
pub struct P2<N> {
    pub x: N,
    pub y: N,
}

#[derive(Clone, Copy, Debug)]
pub struct V2<N> {
    pub x: N,
    pub y: N,
}

pub open spec fn zero<N: Scalar>() -> N {
    N::spec_from_ratio(0, 1)
}

pub open spec fn one<N: Scalar>() -> N {
    N::spec_from_ratio(1, 1)
}

pub open spec fn two<N: Scalar>() -> N {
    N::spec_from_ratio(2, 1)
}

/// The vector from `b` to `a`.
pub open spec fn p_minus<N: Scalar>(a: P2<N>, b: P2<N>) -> V2<N> {
    V2 { x: a.x.spec_minus(b.x), y: a.y.spec_minus(b.y) }
}

pub open spec fn p_plus<N: Scalar>(p: P2<N>, v: V2<N>) -> P2<N> {
    P2 { x: p.x.spec_plus(v.x), y: p.y.spec_plus(v.y) }
}

pub open spec fn p_midpoint<N: Scalar>(a: P2<N>, b: P2<N>) -> P2<N> {
    P2 {
        x: a.x.spec_plus(b.x).spec_divided_by(two()),
        y: a.y.spec_plus(b.y).spec_divided_by(two()),
    }
}

pub open spec fn v_plus<N: Scalar>(a: V2<N>, b: V2<N>) -> V2<N> {
    V2 { x: a.x.spec_plus(b.x), y: a.y.spec_plus(b.y) }
}

pub open spec fn v_minus<N: Scalar>(a: V2<N>, b: V2<N>) -> V2<N> {
    V2 { x: a.x.spec_minus(b.x), y: a.y.spec_minus(b.y) }
}

pub open spec fn v_scaled<N: Scalar>(v: V2<N>, k: N) -> V2<N> {
    V2 { x: v.x.spec_times(k), y: v.y.spec_times(k) }
}

pub open spec fn v_negated<N: Scalar>(v: V2<N>) -> V2<N> {
    V2 { x: v.x.spec_negated(), y: v.y.spec_negated() }
}

pub open spec fn dot<N: Scalar>(a: V2<N>, b: V2<N>) -> N {
    a.x.spec_times(b.x).spec_plus(a.y.spec_times(b.y))
}

pub open spec fn perp_dot<N: Scalar>(a: V2<N>, b: V2<N>) -> N {
    a.x.spec_times(b.y).spec_minus(a.y.spec_times(b.x))
}

pub open spec fn norm<N: Scalar>(v: V2<N>) -> N {
    dot(v, v).spec_square_root()
}

pub open spec fn normalize<N: Scalar>(v: V2<N>) -> V2<N> {
    V2 { x: v.x.spec_divided_by(norm(v)), y: v.y.spec_divided_by(norm(v)) }
}

/// A quarter turn clockwise: `(y, -x)`.
pub open spec fn orthogonal<N: Scalar>(v: V2<N>) -> V2<N> {
    V2 { x: v.y, y: v.x.spec_negated() }
}

pub open spec fn p_rough_eq_by<N: Scalar>(a: P2<N>, b: P2<N>, tolerance: N) -> bool {
    norm(p_minus(a, b)).spec_at_most(tolerance)
}

pub open spec fn v_rough_eq_by<N: Scalar>(a: V2<N>, b: V2<N>, tolerance: N) -> bool {
    norm(v_minus(a, b)).spec_at_most(tolerance)
}

pub open spec fn rough_eq_by_spec<N: Scalar>(a: N, b: N, tolerance: N) -> bool {
    a.spec_minus(b).spec_absolute().spec_at_most(tolerance)
}

pub open spec fn rough_eq_spec<N: Scalar>(a: N, b: N) -> bool {
    rough_eq_by_spec(a, b, N::spec_from_ratio(ROUGH_NUMERATOR, ROUGH_DENOMINATOR))
}

pub open spec fn signum_spec<N: Scalar>(a: N) -> N {
    if zero::<N>().spec_less_than(a) {
        one()
    } else if a.spec_less_than(zero()) {
        N::spec_from_ratio(-1i64, 1)
    } else {
        zero()
    }
}

pub open spec fn angle_to_spec<N: Scalar>(a: V2<N>, b: V2<N>) -> N {
    let cosine = dot(a, b).spec_divided_by(norm(a).spec_times(norm(b)));
    let clamped = if one::<N>().spec_less_than(cosine) {
        one()
    } else if cosine.spec_less_than(one::<N>().spec_negated()) {
        one::<N>().spec_negated()
    } else {
        cosine
    };
    clamped.spec_arc_cosine()
}

pub open spec fn full_turn<N: Scalar>() -> N {
    two::<N>().spec_times(N::spec_half_turn())
}

pub open spec fn angle_along_to_spec<N: Scalar>(a: V2<N>, a_direction: V2<N>, b: V2<N>) -> N {
    if zero::<N>().spec_at_most(dot(a_direction, normalize(v_minus(b, a)))) {
        angle_to_spec(a, b)
    } else {
        full_turn::<N>().spec_minus(angle_to_spec(a, b))
    }
}

pub open spec fn signed_angle_to_spec<N: Scalar>(a: V2<N>, b: V2<N>) -> N {
    perp_dot(a, b).spec_atan2(dot(a, b))
}

impl<N: Scalar> P2<N> {
    pub fn new(x: N, y: N) -> (r: P2<N>)
        ensures
            r.x == x,
            r.y == y,
    {
        P2 { x, y }
    }

    /// The vector from `other` to `self`.
    pub fn minus(self, other: P2<N>) -> (r: V2<N>)
        ensures
            r == p_minus(self, other),
    {
        V2 { x: self.x.minus(other.x), y: self.y.minus(other.y) }
    }

    pub fn plus(self, v: V2<N>) -> (r: P2<N>)
        ensures
            r == p_plus(self, v),
    {
        P2 { x: self.x.plus(v.x), y: self.y.plus(v.y) }
    }

    /// The vector from the origin to `self`.
    pub fn coords(self) -> (r: V2<N>)
        ensures
            r.x == self.x,
            r.y == self.y,
    {
        V2 { x: self.x, y: self.y }
    }

    /// The point halfway between `self` and `other`.
    pub fn midpoint(self, other: P2<N>) -> (r: P2<N>)
        ensures
            r == p_midpoint(self, other),
    {
        let two = N::from_ratio(2, 1);
        P2 { x: self.x.plus(other.x).divided_by(two), y: self.y.plus(other.y).divided_by(two) }
    }

    /// Within `tolerance` of `other`, by Euclidean distance.
    pub fn rough_eq_by(self, other: P2<N>, tolerance: N) -> (r: bool)
        ensures
            r == p_rough_eq_by(self, other, tolerance),
    {
        self.minus(other).norm().at_most(tolerance)
    }
}

impl<N: Scalar> V2<N> {
    pub fn new(x: N, y: N) -> (r: V2<N>)
        ensures
            r.x == x,
            r.y == y,
    {
        V2 { x, y }
    }

    /// The point that this vector leads to from the origin.
    pub fn to_point(self) -> (r: P2<N>)
        ensures
            r.x == self.x,
            r.y == self.y,
    {
        P2 { x: self.x, y: self.y }
    }

    pub fn plus(self, other: V2<N>) -> (r: V2<N>)
        ensures
            r == v_plus(self, other),
    {
        V2 { x: self.x.plus(other.x), y: self.y.plus(other.y) }
    }

    pub fn minus(self, other: V2<N>) -> (r: V2<N>)
        ensures
            r == v_minus(self, other),
    {
        V2 { x: self.x.minus(other.x), y: self.y.minus(other.y) }
    }

    pub fn scaled(self, k: N) -> (r: V2<N>)
        ensures
            r == v_scaled(self, k),
    {
        V2 { x: self.x.times(k), y: self.y.times(k) }
    }

    pub fn negated(self) -> (r: V2<N>)
        ensures
            r == v_negated(self),
    {
        V2 { x: self.x.negated(), y: self.y.negated() }
    }

    pub fn dot(self, other: V2<N>) -> (r: N)
        ensures
            r == dot(self, other),
    {
        self.x.times(other.x).plus(self.y.times(other.y))
    }

    /// The z component of the cross product with `other`.
    pub fn perp_dot(self, other: V2<N>) -> (r: N)
        ensures
            r == perp_dot(self, other),
    {
        self.x.times(other.y).minus(self.y.times(other.x))
    }

    pub fn norm_squared(self) -> (r: N)
        ensures
            r == dot(self, self),
    {
        self.dot(self)
    }

    pub fn norm(self) -> (r: N)
        ensures
            r == norm(self),
    {
        self.norm_squared().square_root()
    }

    /// This vector scaled to length one.
    pub fn normalize(self) -> (r: V2<N>)
        ensures
            r == normalize(self),
    {
        let n = self.norm();
        V2 { x: self.x.divided_by(n), y: self.y.divided_by(n) }
    }

    /// This vector turned a quarter turn clockwise: `(y, -x)`.
    pub fn orthogonal(self) -> (r: V2<N>)
        ensures
            r == orthogonal(self),
    {
        V2 { x: self.y, y: self.x.negated() }
    }

    /// Within `tolerance` of `other`, by Euclidean distance.
    pub fn rough_eq_by(self, other: V2<N>, tolerance: N) -> (r: bool)
        ensures
            r == v_rough_eq_by(self, other, tolerance),
    {
        self.minus(other).norm().at_most(tolerance)
    }
}

/// `|a - b| <= tolerance`.
pub fn rough_eq_by<N: Scalar>(a: N, b: N, tolerance: N) -> (r: bool)
    ensures
        r == rough_eq_by_spec(a, b, tolerance),
{
    a.minus(b).absolute().at_most(tolerance)
}

/// `|a - b|` within the default tolerance.
pub fn rough_eq<N: Scalar>(a: N, b: N) -> (r: bool)
    ensures
        r == rough_eq_spec(a, b),
{
    rough_eq_by(a, b, N::from_ratio(ROUGH_NUMERATOR, ROUGH_DENOMINATOR))
}

/// The sign of `a`: one, minus one, or zero.
pub fn signum<N: Scalar>(a: N) -> (r: N)
    ensures
        r == signum_spec(a),
{
    let zero = N::from_ratio(0, 1);
    if zero.less_than(a) {
        N::from_ratio(1, 1)
    } else if a.less_than(zero) {
        N::from_ratio(-1, 1)
    } else {
        zero
    }
}

/// The unsigned angle between `a` and `b`, in `[0, π]`.
pub fn angle_to<N: Scalar>(a: V2<N>, b: V2<N>) -> (r: N)
    ensures
        r == angle_to_spec(a, b),
{
    let one = N::from_ratio(1, 1);
    let cosine = a.dot(b).divided_by(a.norm().times(b.norm()));
    let clamped = if one.less_than(cosine) {
        one
    } else if cosine.less_than(one.negated()) {
        one.negated()
    } else {
        cosine
    };
    clamped.arc_cosine()
}

/// The angle swept from `a` to `b` when setting out in `a_direction`: the
/// unsigned angle between them where that direction leads towards `b`, else
/// the rest of the full turn.
pub fn angle_along_to<N: Scalar>(a: V2<N>, a_direction: V2<N>, b: V2<N>) -> (r: N)
    ensures
        r == angle_along_to_spec(a, a_direction, b),
{
    let simple_angle = angle_to(a, b);
    let linear_direction = b.minus(a).normalize();
    if N::from_ratio(0, 1).at_most(a_direction.dot(linear_direction)) {
        simple_angle
    } else {
        N::from_ratio(2, 1).times(N::half_turn()).minus(simple_angle)
    }
}

/// The signed angle from `a` to `b`, in `(-π, π]`, positive counterclockwise.
pub fn signed_angle_to<N: Scalar>(a: V2<N>, b: V2<N>) -> (r: N)
    ensures
        r == signed_angle_to_spec(a, b),
{
    a.perp_dot(b).atan2(a.dot(b))
}

} // verus!
