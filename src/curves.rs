//! Curves of the plane: circles, infinite lines, and finite segments that are
//! straight or circular arcs, parametrised by the distance along them.
use vstd::prelude::*;
use crate::scalar::Scalar;
use crate::vector::{
    angle_along_to, angle_along_to_spec, dot, norm, normalize, one, orthogonal, p_minus, p_plus,
    perp_dot, rough_eq, rough_eq_spec, two, v_scaled, zero, P2, V2,
};

verus! {

pub open spec fn thickness_spec<N: Scalar>() -> N {
    N::spec_from_ratio(1, 1000)
}

pub open spec fn min_start_to_end_spec<N: Scalar>() -> N {
    N::spec_from_ratio(1, 100)
}

pub open spec fn direction_tolerance_spec<N: Scalar>() -> N {
    N::spec_from_ratio(1, 10_000)
}

pub open spec fn max_simple_line_length_spec<N: Scalar>() -> N {
    N::spec_from_ratio(1, 2)
}

/// Half the nominal width: the reach of `includes`.
pub open spec fn half_thickness<N: Scalar>() -> N {
    thickness_spec::<N>().spec_divided_by(two())
}

/// Nominal width of a curve: points closer than half of it lie on the curve,
/// and a projection snaps to an endpoint within it.
pub fn thickness<N: Scalar>() -> (r: N)
    ensures
        r == thickness_spec::<N>(),
{
    N::from_ratio(1, 1000)
}

/// The least distance between the endpoints of a segment.
pub fn min_start_to_end<N: Scalar>() -> (r: N)
    ensures
        r == min_start_to_end_spec::<N>(),
{
    N::from_ratio(1, 100)
}

/// How far two unit directions may differ and still count as parallel.
pub fn direction_tolerance<N: Scalar>() -> (r: N)
    ensures
        r == direction_tolerance_spec::<N>(),
{
    N::from_ratio(1, 10_000)
}

/// Below this chord length a biarc falls back to the straight chord.
pub fn max_simple_line_length<N: Scalar>() -> (r: N)
    ensures
        r == max_simple_line_length_spec::<N>(),
{
    N::from_ratio(1, 2)
}

/// The smaller of `a` and `b`; a NaN loses to a number.
pub open spec fn minimum_spec<N: Scalar>(a: N, b: N) -> N {
    if a.spec_is_nan() || b.spec_less_than(a) {
        b
    } else {
        a
    }
}

/// The larger of `a` and `b`; a NaN loses to a number.
pub open spec fn maximum_spec<N: Scalar>(a: N, b: N) -> N {
    if a.spec_is_nan() || a.spec_less_than(b) {
        b
    } else {
        a
    }
}

/// `v` turned by `angle` radians counterclockwise.
pub open spec fn rotated_spec<N: Scalar>(v: V2<N>, angle: N) -> V2<N> {
    let c = angle.spec_cosine();
    let s = angle.spec_sine();
    V2 {
        x: c.spec_times(v.x).spec_minus(s.spec_times(v.y)),
        y: s.spec_times(v.x).spec_plus(c.spec_times(v.y)),
    }
}

pub(crate) fn minimum<N: Scalar>(a: N, b: N) -> (r: N)
    ensures
        r == minimum_spec(a, b),
{
    if a.is_nan() || b.less_than(a) {
        b
    } else {
        a
    }
}

pub(crate) fn maximum<N: Scalar>(a: N, b: N) -> (r: N)
    ensures
        r == maximum_spec(a, b),
{
    if a.is_nan() || a.less_than(b) {
        b
    } else {
        a
    }
}

pub(crate) fn rotated<N: Scalar>(v: V2<N>, angle: N) -> (r: V2<N>)
    ensures
        r == rotated_spec(v, angle),
{
    let c = angle.cosine();
    let s = angle.sine();
    V2::new(c.times(v.x).minus(s.times(v.y)), s.times(v.x).plus(c.times(v.y)))
}

/// A projection kept only where the projected point is closer than
/// `max_distance` to `point`.
pub open spec fn within_max_distance<N: Scalar>(
    projection: Option<(N, P2<N>)>,
    point: P2<N>,
    max_distance: N,
) -> Option<(N, P2<N>)> {
    match projection {
        Some((offset, projected)) => if norm(p_minus(point, projected)).spec_less_than(max_distance) {
            Some((offset, projected))
        } else {
            None
        },
        None => None,
    }
}

pub(crate) fn keep_within<N: Scalar>(projection: Option<(N, P2<N>)>, point: P2<N>, max_distance: N) -> (r:
    Option<(N, P2<N>)>)
    ensures
        r == within_max_distance(projection, point, max_distance),
{
    match projection {
        Some((offset, projected_point)) => {
            if point.minus(projected_point).norm().less_than(max_distance) {
                Some((offset, projected_point))
            } else {
                None
            }
        },
        None => None,
    }
}

/// An axis-aligned box.
#[derive(Clone, Copy, Debug)]
pub struct BoundingBox<N> {
    pub min: P2<N>,
    pub max: P2<N>,
}

#[derive(Clone, Copy, Debug)]
pub struct Circle<N> {
    pub center: P2<N>,
    pub radius: N,
}

/// The projection of `point` onto the circle: the offset counterclockwise
/// from the point due east of the center, and the point pulled onto the
/// circle along the radius.
pub open spec fn circle_projection<N: Scalar>(c: Circle<N>, point: P2<N>) -> (N, P2<N>) {
    let to_point = p_minus(point, c.center);
    let east = V2 { x: one::<N>(), y: zero::<N>() };
    let north = V2 { x: zero::<N>(), y: one::<N>() };
    (
        c.radius.spec_times(angle_along_to_spec(east, north, to_point)),
        p_plus(c.center, v_scaled(normalize(to_point), c.radius)),
    )
}

/// `| |point - center| - radius |`
pub open spec fn circle_distance<N: Scalar>(c: Circle<N>, point: P2<N>) -> N {
    norm(p_minus(point, c.center)).spec_minus(c.radius).spec_absolute()
}

impl<N: Scalar> Circle<N> {
    /// The point of the circle nearest to `point`, with its distance along the
    /// circle counterclockwise from the point due east of the center.
    pub fn project_with_tolerance(&self, point: P2<N>, tolerance: N) -> (r: Option<(N, P2<N>)>)
        ensures
            r == Some(circle_projection(*self, point)),
    {
        let zero = N::from_ratio(0, 1);
        let one = N::from_ratio(1, 1);
        let to_point = point.minus(self.center);
        let angle = angle_along_to(V2::new(one, zero), V2::new(zero, one), to_point);
        Some((self.radius.times(angle), self.center.plus(to_point.normalize().scaled(self.radius))))
    }

    pub fn project(&self, point: P2<N>) -> (r: Option<(N, P2<N>)>)
        ensures
            r == Some(circle_projection(*self, point)),
    {
        self.project_with_tolerance(point, thickness())
    }

    /// As `project_with_tolerance`, and none where the nearest point is not
    /// closer than `max_distance`.
    pub fn project_with_max_distance(&self, point: P2<N>, max_distance: N, tolerance: N) -> (r: Option<
        (N, P2<N>),
    >)
        ensures
            r == within_max_distance(Some(circle_projection(*self, point)), point, max_distance),
    {
        keep_within(self.project_with_tolerance(point, tolerance), point, max_distance)
    }

    /// Distance from `point` to the circle: `| |point - center| - radius |`.
    pub fn distance_to(&self, point: P2<N>) -> (r: N)
        ensures
            r == circle_distance(*self, point),
    {
        point.minus(self.center).norm().minus(self.radius).absolute()
    }

    pub fn includes(&self, point: P2<N>) -> (r: bool)
        ensures
            r == circle_distance(*self, point).spec_less_than(half_thickness()),
    {
        self.distance_to(point).less_than(thickness::<N>().divided_by(N::from_ratio(2, 1)))
    }
}

/// An infinite line through `start`, with unit `direction`.
#[derive(Clone, Copy, Debug)]
pub struct Line<N> {
    pub start: P2<N>,
    pub direction: V2<N>,
}

/// How two lines meet.
#[derive(Clone, Copy, Debug)]
pub enum LineMeeting<N> {
    /// They cross once, at `position`, which lies `along_a` along the first
    /// from its start and `along_b` along the second from its.
    Crossing { along_a: N, along_b: N, position: P2<N> },
    /// They are parallel and apart.
    Apart,
    /// They are the same line.
    Coincident,
}

/// The foot of the perpendicular from `point`, with its signed distance from
/// `start` along `direction`.
pub open spec fn line_projection<N: Scalar>(l: Line<N>, point: P2<N>) -> (N, P2<N>) {
    let along = dot(p_minus(point, l.start), l.direction);
    (along, p_plus(l.start, v_scaled(l.direction, along)))
}

/// The absolute component of `point - start` square to the direction.
pub open spec fn line_distance<N: Scalar>(l: Line<N>, point: P2<N>) -> N {
    dot(p_minus(point, l.start), orthogonal(l.direction)).spec_absolute()
}

/// Where `a` meets `b`: parallel (within the default tolerance) lines are the
/// same line where `b`'s start lies on `a`, else apart; other lines cross once.
pub open spec fn line_meeting<N: Scalar>(a: Line<N>, b: Line<N>) -> LineMeeting<N> {
    let det = perp_dot(b.direction, a.direction);
    if rough_eq_spec(det, zero()) {
        if rough_eq_spec(line_distance(a, b.start), zero()) {
            LineMeeting::Coincident
        } else {
            LineMeeting::Apart
        }
    } else {
        let delta = p_minus(b.start, a.start);
        let along_a = perp_dot(b.direction, delta).spec_divided_by(det);
        LineMeeting::Crossing {
            along_a,
            along_b: perp_dot(a.direction, delta).spec_divided_by(det),
            position: p_plus(a.start, v_scaled(a.direction, along_a)),
        }
    }
}

impl<N: Scalar> Line<N> {
    /// The foot of the perpendicular from `point`, with its signed distance
    /// from `start` along `direction`.
    pub fn project_with_tolerance(&self, point: P2<N>, tolerance: N) -> (r: Option<(N, P2<N>)>)
        ensures
            r == Some(line_projection(*self, point)),
    {
        let along = point.minus(self.start).dot(self.direction);
        Some((along, self.start.plus(self.direction.scaled(along))))
    }

    pub fn project(&self, point: P2<N>) -> (r: Option<(N, P2<N>)>)
        ensures
            r == Some(line_projection(*self, point)),
    {
        self.project_with_tolerance(point, thickness())
    }

    /// As `project_with_tolerance`, and none where the nearest point is not
    /// closer than `max_distance`.
    pub fn project_with_max_distance(&self, point: P2<N>, max_distance: N, tolerance: N) -> (r: Option<
        (N, P2<N>),
    >)
        ensures
            r == within_max_distance(Some(line_projection(*self, point)), point, max_distance),
    {
        keep_within(self.project_with_tolerance(point, tolerance), point, max_distance)
    }

    pub fn distance_to(&self, point: P2<N>) -> (r: N)
        ensures
            r == line_distance(*self, point),
    {
        point.minus(self.start).dot(self.direction.orthogonal()).absolute()
    }

    pub fn includes(&self, point: P2<N>) -> (r: bool)
        ensures
            r == line_distance(*self, point).spec_less_than(half_thickness()),
    {
        self.distance_to(point).less_than(thickness::<N>().divided_by(N::from_ratio(2, 1)))
    }

    /// Where this line meets `other`.
    pub fn intersect(&self, other: &Line<N>) -> (r: LineMeeting<N>)
        ensures
            r == line_meeting(*self, *other),
    {
        let det = other.direction.perp_dot(self.direction);
        if rough_eq(det, N::from_ratio(0, 1)) {
            if rough_eq(self.distance_to(other.start), N::from_ratio(0, 1)) {
                LineMeeting::Coincident
            } else {
                LineMeeting::Apart
            }
        } else {
            let delta = other.start.minus(self.start);
            let along_a = other.direction.perp_dot(delta).divided_by(det);
            let along_b = self.direction.perp_dot(delta).divided_by(det);
            LineMeeting::Crossing {
                along_a,
                along_b,
                position: self.start.plus(self.direction.scaled(along_a)),
            }
        }
    }
}

/// A curve of the plane that points can be projected onto.
pub trait Curve<N: Scalar>: Sized {
    /// The offset along the curve and the curve's point nearest to `point`,
    /// where there is one; `tolerance` is how near an end counts as on it.
    fn project_with_tolerance(&self, point: P2<N>, tolerance: N) -> Option<(N, P2<N>)>;

    /// As `project_with_tolerance`, with the nominal curve width as tolerance.
    fn project(&self, point: P2<N>) -> Option<(N, P2<N>)>;

    /// As `project_with_tolerance`, and none where the nearest point is not
    /// closer than `max_distance`.
    fn project_with_max_distance(&self, point: P2<N>, max_distance: N, tolerance: N) -> Option<
        (N, P2<N>),
    >;

    /// `point` lies within half the nominal curve width of the curve.
    fn includes(&self, point: P2<N>) -> bool;

    fn distance_to(&self, point: P2<N>) -> N;
}

/// A curve of finite length, parametrised by the distance along it.
pub trait FiniteCurve<N: Scalar>: Curve<N> {
    fn length(&self) -> N;

    fn along(&self, distance: N) -> P2<N>;

    fn direction_along(&self, distance: N) -> V2<N>;

    fn start(&self) -> P2<N>;

    fn start_direction(&self) -> V2<N>;

    fn end(&self) -> P2<N>;

    fn end_direction(&self) -> V2<N>;

    fn midpoint(&self) -> P2<N>;

    fn midpoint_direction(&self) -> V2<N>;

    fn reverse(&self) -> Self;

    fn subsection(&self, start: N, end: N) -> Option<Self>;

    fn shift_orthogonally(&self, shift_to_right: N) -> Option<Self>;
}

impl<N: Scalar> Curve<N> for Circle<N> {
    fn project_with_tolerance(&self, point: P2<N>, tolerance: N) -> Option<(N, P2<N>)> {
        Circle::project_with_tolerance(self, point, tolerance)
    }

    fn project(&self, point: P2<N>) -> Option<(N, P2<N>)> {
        Circle::project(self, point)
    }

    fn project_with_max_distance(&self, point: P2<N>, max_distance: N, tolerance: N) -> Option<
        (N, P2<N>),
    > {
        Circle::project_with_max_distance(self, point, max_distance, tolerance)
    }

    fn includes(&self, point: P2<N>) -> bool {
        Circle::includes(self, point)
    }

    fn distance_to(&self, point: P2<N>) -> N {
        Circle::distance_to(self, point)
    }
}

impl<N: Scalar> Curve<N> for Line<N> {
    fn project_with_tolerance(&self, point: P2<N>, tolerance: N) -> Option<(N, P2<N>)> {
        Line::project_with_tolerance(self, point, tolerance)
    }

    fn project(&self, point: P2<N>) -> Option<(N, P2<N>)> {
        Line::project(self, point)
    }

    fn project_with_max_distance(&self, point: P2<N>, max_distance: N, tolerance: N) -> Option<
        (N, P2<N>),
    > {
        Line::project_with_max_distance(self, point, max_distance, tolerance)
    }

    fn includes(&self, point: P2<N>) -> bool {
        Line::includes(self, point)
    }

    fn distance_to(&self, point: P2<N>) -> N {
        Line::distance_to(self, point)
    }
}

} // verus!
