//! Finite segments: straight pieces and circular arcs, parametrised by the
//! distance along them from their start.
//!
//! Each operation has a spec function that says what it computes in terms of
//! the scalar operations, and returns exactly that.
use vstd::prelude::*;
use crate::curves::{
    direction_tolerance, direction_tolerance_spec, half_thickness, keep_within, line_meeting,
    max_simple_line_length, max_simple_line_length_spec, maximum, maximum_spec, min_start_to_end,
    min_start_to_end_spec, minimum, minimum_spec, rotated, rotated_spec, thickness, thickness_spec,
    within_max_distance, BoundingBox, Curve, FiniteCurve, Line, LineMeeting,
};
use crate::scalar::Scalar;
use crate::svg::{arc_path, arc_path_text, line_path, line_path_text};
use crate::vector::{
    angle_along_to, angle_along_to_spec, dot, full_turn, norm, normalize, one, orthogonal,
    p_midpoint, p_minus, p_plus, p_rough_eq_by, rough_eq, rough_eq_spec, signed_angle_to,
    signed_angle_to_spec, signum, signum_spec, two, v_negated, v_plus, v_rough_eq_by, v_scaled,
    zero, P2, V2,
};

verus! {

/// The course of a segment between its endpoints.
#[derive(Clone, Copy, Debug)]
pub enum Bend<N> {
    /// Straight, along the unit `direction`.
    Straight { direction: V2<N> },
    /// Along the circle round `center`; the sign of `signed_radius` gives the
    /// sense of turning: positive for clockwise, negative for counterclockwise.
    Arc { center: P2<N>, signed_radius: N },
}

/// A finite curve from `start` to `end`, of arc length `length`.
#[derive(Clone, Copy, Debug)]
pub struct Segment<N> {
    pub start: P2<N>,
    pub end: P2<N>,
    pub length: N,
    pub bend: Bend<N>,
}

/// A coordinate is NaN, or the endpoints are closer than the least distance.
pub open spec fn invalid_spec<N: Scalar>(start: P2<N>, end: P2<N>) -> bool {
    start.x.spec_is_nan() || start.y.spec_is_nan() || end.x.spec_is_nan() || end.y.spec_is_nan()
        || norm(p_minus(start, end)).spec_less_than(min_start_to_end_spec())
}

/// The straight segment from `start` to `end`: its length is the norm of the
/// chord and its direction the normalized chord.
pub open spec fn line_spec<N: Scalar>(start: P2<N>, end: P2<N>) -> Option<Segment<N>> {
    if invalid_spec(start, end) {
        None
    } else {
        Some(
            Segment {
                start,
                end,
                length: norm(p_minus(end, start)),
                bend: Bend::Straight { direction: normalize(p_minus(end, start)) },
            },
        )
    }
}

/// The direction `direction` points along the chord from `start` to `end`.
pub open spec fn along_chord<N: Scalar>(start: P2<N>, direction: V2<N>, end: P2<N>) -> bool {
    v_rough_eq_by(direction, normalize(p_minus(end, start)), direction_tolerance_spec())
}

/// The arc from `start` in `direction` to `end`: its signed radius is
/// `|h|² / (orthogonal(direction) · h)` for the half chord `h`, its center
/// that far along the orthogonal of `direction` from `start`, and its length
/// the angle swept round the center times the radius. The straight segment
/// where `direction` points along the chord.
pub open spec fn arc_spec<N: Scalar>(start: P2<N>, direction: V2<N>, end: P2<N>) -> Option<Segment<N>> {
    if invalid_spec(start, end) {
        None
    } else if along_chord(start, direction, end) {
        line_spec(start, end)
    } else {
        let half_chord = v_scaled(p_minus(end, start), N::spec_from_ratio(1, 2));
        let signed_radius = dot(half_chord, half_chord).spec_divided_by(
            dot(orthogonal(direction), half_chord),
        );
        let center = p_plus(start, v_scaled(orthogonal(direction), signed_radius));
        let angle_span = angle_along_to_spec(p_minus(start, center), direction, p_minus(end, center));
        Some(
            Segment {
                start,
                end,
                length: angle_span.spec_times(signed_radius.spec_absolute()),
                bend: Bend::Arc { center, signed_radius },
            },
        )
    }
}

pub open spec fn radius_spec<N: Scalar>(s: Segment<N>) -> N {
    match s.bend {
        Bend::Arc { signed_radius, .. } => signed_radius.spec_absolute(),
        Bend::Straight { .. } => zero(),
    }
}

pub open spec fn signed_radius_spec<N: Scalar>(s: Segment<N>) -> N {
    match s.bend {
        Bend::Arc { signed_radius, .. } => signed_radius,
        Bend::Straight { .. } => zero(),
    }
}

/// The point at `distance` along `s`: along the direction, or the start
/// turned round the center by `distance / -signed_radius` radians.
pub open spec fn along_spec<N: Scalar>(s: Segment<N>, distance: N) -> P2<N> {
    match s.bend {
        Bend::Straight { direction } => p_plus(s.start, v_scaled(direction, distance)),
        Bend::Arc { center, signed_radius } => p_plus(
            center,
            rotated_spec(p_minus(s.start, center), distance.spec_divided_by(signed_radius.spec_negated())),
        ),
    }
}

/// The tangent of an arc at the point `center + radial`.
pub open spec fn arc_tangent<N: Scalar>(radial: V2<N>, signed_radius: N) -> V2<N> {
    v_scaled(orthogonal(normalize(radial)), signum_spec(signed_radius))
}

pub open spec fn direction_along_spec<N: Scalar>(s: Segment<N>, distance: N) -> V2<N> {
    match s.bend {
        Bend::Straight { direction } => direction,
        Bend::Arc { center, signed_radius } => arc_tangent(
            rotated_spec(p_minus(s.start, center), distance.spec_divided_by(signed_radius.spec_negated())),
            signed_radius,
        ),
    }
}

pub open spec fn start_direction_spec<N: Scalar>(s: Segment<N>) -> V2<N> {
    match s.bend {
        Bend::Straight { direction } => direction,
        Bend::Arc { center, signed_radius } => arc_tangent(p_minus(s.start, center), signed_radius),
    }
}

pub open spec fn end_direction_spec<N: Scalar>(s: Segment<N>) -> V2<N> {
    match s.bend {
        Bend::Straight { direction } => direction,
        Bend::Arc { center, signed_radius } => arc_tangent(p_minus(s.end, center), signed_radius),
    }
}

pub open spec fn half_length<N: Scalar>(s: Segment<N>) -> N {
    s.length.spec_divided_by(two())
}

/// `s` traversed the other way: endpoints swapped, the direction or the
/// signed radius negated, the length and the center kept.
pub open spec fn reversed_spec<N: Scalar>(s: Segment<N>) -> Segment<N> {
    Segment {
        start: s.end,
        end: s.start,
        length: s.length,
        bend: match s.bend {
            Bend::Straight { direction } => Bend::Straight { direction: v_negated(direction) },
            Bend::Arc { center, signed_radius } => Bend::Arc {
                center,
                signed_radius: signed_radius.spec_negated(),
            },
        },
    }
}

/// The part of `s` between the distances `from` and `to`, clamped to
/// `[0, length]`: none where the clamped span is shorter than the least
/// endpoint distance; a straight segment through the two points where `s` is
/// straight or the span touches an end; else the arc that sets out along `s`.
pub open spec fn subsection_spec<N: Scalar>(s: Segment<N>, from: N, to: N) -> Option<Segment<N>> {
    let true_start = maximum_spec(from, zero());
    let true_end = minimum_spec(to, s.length);
    if true_end.spec_minus(true_start).spec_less_than(min_start_to_end_spec()) {
        None
    } else if s.bend is Straight || rough_eq_spec(true_end, zero()) || rough_eq_spec(true_start, s.length) {
        line_spec(along_spec(s, true_start), along_spec(s, true_end))
    } else {
        arc_spec(along_spec(s, true_start), direction_along_spec(s, true_start), along_spec(s, true_end))
    }
}

/// `s` moved `shift` to the right: both endpoints of a straight segment move
/// along the orthogonal of its direction; each endpoint of an arc moves along
/// the orthogonal of its own tangent, and the arc is rebuilt through them
/// with its start tangent.
pub open spec fn shifted_spec<N: Scalar>(s: Segment<N>, shift: N) -> Option<Segment<N>> {
    match s.bend {
        Bend::Straight { direction } => {
            let offset = v_scaled(orthogonal(direction), shift);
            line_spec(p_plus(s.start, offset), p_plus(s.end, offset))
        },
        Bend::Arc { .. } => arc_spec(
            p_plus(s.start, v_scaled(orthogonal(start_direction_spec(s)), shift)),
            start_direction_spec(s),
            p_plus(s.end, v_scaled(orthogonal(end_direction_spec(s)), shift)),
        ),
    }
}

/// The projection of `point` onto `s`: the start or the end where `point` is
/// closer than `tolerance` to it; else the foot of the perpendicular where it
/// lies within a straight segment; else the radial projection where it lies
/// within an arc's angular span; else none.
pub open spec fn projection_spec<N: Scalar>(s: Segment<N>, point: P2<N>, tolerance: N) -> Option<(N, P2<N>)> {
    if norm(p_minus(point, s.start)).spec_less_than(tolerance) {
        Some((zero(), s.start))
    } else if norm(p_minus(point, s.end)).spec_less_than(tolerance) {
        Some((s.length, s.end))
    } else {
        match s.bend {
            Bend::Straight { direction } => {
                let offset = dot(direction, p_minus(point, s.start));
                if zero::<N>().spec_at_most(offset) && offset.spec_at_most(s.length) {
                    Some((offset, p_plus(s.start, v_scaled(direction, offset))))
                } else {
                    None
                }
            },
            Bend::Arc { center, signed_radius } => {
                let radius = signed_radius.spec_absolute();
                let angle = angle_along_to_spec(
                    p_minus(s.start, center),
                    start_direction_spec(s),
                    p_minus(point, center),
                );
                if angle.spec_at_most(s.length.spec_divided_by(radius)) {
                    Some(
                        (
                            minimum_spec(angle.spec_times(radius), s.length),
                            p_plus(center, v_scaled(normalize(p_minus(point, center)), radius)),
                        ),
                    )
                } else {
                    None
                }
            },
        }
    }
}

/// Distance from `point` to its projection, or to the nearer endpoint where it
/// has none.
pub open spec fn distance_spec<N: Scalar>(s: Segment<N>, point: P2<N>) -> N {
    match projection_spec(s, point, thickness_spec()) {
        Some((_offset, projected)) => norm(p_minus(point, projected)),
        None => minimum_spec(norm(p_minus(s.start, point)), norm(p_minus(s.end, point))),
    }
}

pub open spec fn segments_rough_eq<N: Scalar>(a: Segment<N>, b: Segment<N>, tolerance: N) -> bool {
    &&& p_rough_eq_by(a.start, b.start, tolerance)
    &&& p_rough_eq_by(a.end, b.end, tolerance)
    &&& p_rough_eq_by(along_spec(a, half_length(a)), along_spec(b, half_length(b)), tolerance)
}

/// The box of the endpoints, or of an arc's whole circle, grown by the
/// nominal width.
pub open spec fn bounding_box_spec<N: Scalar>(s: Segment<N>) -> BoundingBox<N> {
    let t = thickness_spec::<N>();
    match s.bend {
        Bend::Straight { .. } => BoundingBox {
            min: P2 {
                x: minimum_spec(s.start.x, s.end.x).spec_minus(t),
                y: minimum_spec(s.start.y, s.end.y).spec_minus(t),
            },
            max: P2 {
                x: maximum_spec(s.start.x, s.end.x).spec_plus(t),
                y: maximum_spec(s.start.y, s.end.y).spec_plus(t),
            },
        },
        Bend::Arc { center, signed_radius } => {
            let reach = signed_radius.spec_absolute().spec_plus(t);
            let half_diagonal = V2 { x: reach, y: reach };
            BoundingBox { min: p_plus(center, v_negated(half_diagonal)), max: p_plus(center, half_diagonal) }
        },
    }
}

/// `point` lies between the chord of the arc `s` and the arc: inside its
/// circle, and beyond the chord on the side towards which the arc bulges.
pub open spec fn between_chord_and_arc<N: Scalar>(s: Segment<N>, point: P2<N>) -> bool {
    match s.bend {
        Bend::Straight { .. } => false,
        Bend::Arc { center, signed_radius } => {
            let chord_midpoint = p_midpoint(s.start, s.end);
            let sagitta = v_scaled(orthogonal(normalize(p_minus(s.end, s.start))), signum_spec(signed_radius));
            &&& norm(p_minus(point, center)).spec_less_than(signed_radius.spec_absolute())
            &&& dot(p_minus(center, chord_midpoint), sagitta).spec_less_than(dot(p_minus(center, point), sagitta))
        },
    }
}

/// The angle that the chord of `s` subtends at `point`, signed.
pub open spec fn chord_angle<N: Scalar>(s: Segment<N>, point: P2<N>) -> N {
    signed_angle_to_spec(p_minus(s.start, point), p_minus(s.end, point))
}

/// The chord angle `a`, except between the chord and an arc, where it is
/// `(2π - |a|) · -sign(a)`.
pub open spec fn winding_spec<N: Scalar>(s: Segment<N>, point: P2<N>) -> N {
    let a = chord_angle(s, point);
    if between_chord_and_arc(s, point) {
        full_turn::<N>().spec_minus(a.spec_absolute()).spec_times(signum_spec(a).spec_negated())
    } else {
        a
    }
}

/// The connection where the tangent rays cross ahead of both endpoints, at
/// `position`: on the end ray as far from the crossing as the start is, where
/// the start is nearer (arc, then straight); else on the start ray as far from
/// the crossing as the end is (straight, then arc).
pub open spec fn crossing_connection<N: Scalar>(
    start: P2<N>,
    start_direction: V2<N>,
    end: P2<N>,
    end_direction: V2<N>,
    position: P2<N>,
) -> (P2<N>, V2<N>) {
    let start_to_crossing = norm(p_minus(start, position));
    let end_to_crossing = norm(p_minus(end, position));
    if start_to_crossing.spec_less_than(end_to_crossing) {
        (p_plus(position, v_scaled(end_direction, start_to_crossing)), end_direction)
    } else {
        (p_plus(position, v_scaled(v_negated(start_direction), end_to_crossing)), start_direction)
    }
}

/// The common offset `d` of the two arcs of a biarc: `|v|² / (4 v·d₂)` for
/// equal directions, else the positive root of the biarc quadratic.
pub open spec fn biarc_offset<N: Scalar>(
    start: P2<N>,
    start_direction: V2<N>,
    end: P2<N>,
    end_direction: V2<N>,
) -> N {
    let v = p_minus(end, start);
    if v_rough_eq_by(start_direction, end_direction, direction_tolerance_spec()) {
        dot(v, v).spec_divided_by(N::spec_from_ratio(4, 1).spec_times(dot(v, end_direction)))
    } else {
        let v_dot_t = dot(v, v_plus(start_direction, end_direction));
        let one_minus_cos = one::<N>().spec_minus(dot(start_direction, end_direction));
        let discriminant = v_dot_t.spec_times(v_dot_t).spec_plus(
            two::<N>().spec_times(one_minus_cos).spec_times(dot(v, v)),
        );
        v_dot_t.spec_negated().spec_plus(discriminant.spec_square_root()).spec_divided_by(
            two::<N>().spec_times(one_minus_cos),
        )
    }
}

/// The connection of two arcs of equal offset; for equal directions with
/// the chord square to them, the midpoint of the chord, heading back.
pub open spec fn offset_connection<N: Scalar>(
    start: P2<N>,
    start_direction: V2<N>,
    end: P2<N>,
    end_direction: V2<N>,
) -> (P2<N>, V2<N>) {
    let same_direction = v_rough_eq_by(start_direction, end_direction, direction_tolerance_spec());
    let end_square = rough_eq_spec(dot(p_minus(end, start), end_direction), zero());
    if same_direction && end_square {
        (p_midpoint(start, end), v_negated(start_direction))
    } else {
        let d = biarc_offset(start, start_direction, end, end_direction);
        let start_offset_point = p_plus(start, v_scaled(start_direction, d));
        let end_offset_point = p_plus(end, v_scaled(end_direction, d.spec_negated()));
        let connection_direction = normalize(p_minus(end_offset_point, start_offset_point));
        (p_plus(start_offset_point, v_scaled(connection_direction, d)), connection_direction)
    }
}

/// Where the two parts of a biarc join, and the tangent there; none where the
/// tangent rays are one line.
pub open spec fn connection_spec<N: Scalar>(
    start: P2<N>,
    start_direction: V2<N>,
    end: P2<N>,
    end_direction: V2<N>,
) -> Option<(P2<N>, V2<N>)> {
    let start_ray = Line { start, direction: start_direction };
    let end_ray = Line { start: end, direction: v_negated(end_direction) };
    match line_meeting(start_ray, end_ray) {
        LineMeeting::Coincident => None,
        LineMeeting::Crossing { along_a, along_b, position } => if zero::<N>().spec_less_than(along_a)
            && zero::<N>().spec_less_than(along_b) {
            Some(crossing_connection(start, start_direction, end, end_direction, position))
        } else {
            Some(offset_connection(start, start_direction, end, end_direction))
        },
        LineMeeting::Apart => Some(offset_connection(start, start_direction, end, end_direction)),
    }
}

pub open spec fn one_of<N>(s: Option<Segment<N>>) -> Option<Seq<Segment<N>>> {
    match s {
        Some(a) => Some(seq![a]),
        None => None,
    }
}

/// The chain through the connection: one arc where the connection lies within
/// the least endpoint distance of the start (from the connection) or of the
/// end (to the connection), else two.
pub open spec fn split_chain<N: Scalar>(
    start: P2<N>,
    start_direction: V2<N>,
    end: P2<N>,
    connection: P2<N>,
    connection_direction: V2<N>,
) -> Option<Seq<Segment<N>>> {
    if p_rough_eq_by(start, connection, min_start_to_end_spec()) {
        one_of(arc_spec(connection, connection_direction, end))
    } else if p_rough_eq_by(end, connection, min_start_to_end_spec()) {
        one_of(arc_spec(start, start_direction, connection))
    } else {
        match (arc_spec(start, start_direction, connection), arc_spec(connection, connection_direction, end)) {
            (Some(a), Some(b)) => Some(seq![a, b]),
            _ => None,
        }
    }
}

/// The arc from `start` in `start_direction` through `end` where it arrives
/// in `end_direction`; the chord where the endpoints are closer than the
/// short-line length; else the chain through the biarc connection.
pub open spec fn biarc_spec<N: Scalar>(
    start: P2<N>,
    start_direction: V2<N>,
    end: P2<N>,
    end_direction: V2<N>,
) -> Option<Seq<Segment<N>>> {
    if invalid_spec(start, end) {
        None
    } else {
        match arc_spec(start, start_direction, end) {
            None => None,
            Some(simple) => if v_rough_eq_by(
                end_direction_spec(simple),
                end_direction,
                direction_tolerance_spec(),
            ) {
                Some(seq![simple])
            } else if norm(p_minus(end, start)).spec_less_than(max_simple_line_length_spec()) {
                one_of(line_spec(start, end))
            } else {
                match connection_spec(start, start_direction, end, end_direction) {
                    None => None,
                    Some((connection, connection_direction)) => split_chain(
                        start,
                        start_direction,
                        end,
                        connection,
                        connection_direction,
                    ),
                }
            },
        }
    }
}

/// The segments of `chain` follow one another: each ends where the next starts.
pub open spec fn contiguous<N>(chain: Seq<Segment<N>>) -> bool {
    forall|i: int| 0 <= i < chain.len() - 1 ==> #[trigger] chain[i].end == chain[i + 1].start
}

/// A chain of one or two segments, each ending where the next starts, that
/// runs from `start` to `end`: a chain of two keeps both exactly; a single
/// segment starts and ends at them or within the least endpoint distance.
pub open spec fn joins<N: Scalar>(chain: Seq<Segment<N>>, start: P2<N>, end: P2<N>) -> bool {
    &&& 1 <= chain.len() <= 2
    &&& contiguous(chain)
    &&& chain[0].start == start || p_rough_eq_by(start, chain[0].start, min_start_to_end_spec())
    &&& chain.last().end == end || p_rough_eq_by(end, chain.last().end, min_start_to_end_spec())
    &&& chain.len() == 2 ==> chain[0].start == start && chain.last().end == end
}

/// A straight segment leaves its start and reaches its end in one and the
/// same direction, its normalized chord where it was built from the chord.
pub proof fn lemma_straight_tangents_agree<N: Scalar>(start: P2<N>, end: P2<N>)
    requires
        line_spec(start, end) is Some,
    ensures
        start_direction_spec(line_spec(start, end)->0) == end_direction_spec(line_spec(start, end)->0),
        start_direction_spec(line_spec(start, end)->0) == normalize(p_minus(end, start)),
{
}

/// Reversing twice gives back the endpoints, length, kind and center, with the
/// direction or signed radius negated twice.
pub proof fn lemma_reverse_round_trip<N: Scalar>(s: Segment<N>)
    ensures
        reversed_spec(reversed_spec(s)).start == s.start,
        reversed_spec(reversed_spec(s)).end == s.end,
        reversed_spec(reversed_spec(s)).length == s.length,
        s.bend matches Bend::Straight { direction } ==> reversed_spec(reversed_spec(s)).bend
            == (Bend::Straight { direction: v_negated(v_negated(direction)) }),
        s.bend matches Bend::Arc { center, signed_radius } ==> reversed_spec(reversed_spec(s)).bend
            == (Bend::Arc { center, signed_radius: signed_radius.spec_negated().spec_negated() }),
{
}

/// A biarc chain, where there is one, joins its endpoints.
pub proof fn lemma_biarc_joins<N: Scalar>(
    start: P2<N>,
    start_direction: V2<N>,
    end: P2<N>,
    end_direction: V2<N>,
)
    requires
        biarc_spec(start, start_direction, end, end_direction) is Some,
    ensures
        joins(biarc_spec(start, start_direction, end, end_direction)->0, start, end),
{
    let chain = biarc_spec(start, start_direction, end, end_direction)->0;
    if chain.len() == 2 {
        assert(chain[0].end == chain[1].start);
    }
}

/// The chain of `s` alone.
fn single<N>(s: Segment<N>) -> (r: Vec<Segment<N>>)
    ensures
        r@ == seq![s],
{
    let mut chain: Vec<Segment<N>> = Vec::new();
    chain.push(s);
    assert(chain@ =~= seq![s]);
    chain
}

/// Whether the endpoints are unusable: a coordinate is NaN, or they are closer
/// than the least distance.
pub fn start_end_invalid<N: Scalar>(start: P2<N>, end: P2<N>) -> (r: bool)
    ensures
        r == invalid_spec(start, end),
{
    start.x.is_nan() || start.y.is_nan() || end.x.is_nan() || end.y.is_nan()
        || start.minus(end).norm().less_than(min_start_to_end())
}

pub open spec fn fixed4<N: Scalar>(x: N) -> Seq<char> {
    x.spec_fixed_text(4)@
}

/// `LineSeg(x0, y0 to x1, y1)` or `ArcSeg(x0, y0 around cx, cy to x1, y1)`,
/// with each coordinate to four places.
pub open spec fn debug_text_spec<N: Scalar>(s: Segment<N>) -> Seq<char> {
    let head = if s.bend is Straight {
        seq!['L', 'i', 'n', 'e', 'S', 'e', 'g', '(']
    } else {
        seq!['A', 'r', 'c', 'S', 'e', 'g', '(']
    };
    let comma = seq![',', ' '];
    let around = match s.bend {
        Bend::Arc { center, .. } => seq![' ', 'a', 'r', 'o', 'u', 'n', 'd', ' '] + fixed4(center.x) + comma
            + fixed4(center.y),
        Bend::Straight { .. } => Seq::<char>::empty(),
    };
    head + fixed4(s.start.x) + comma + fixed4(s.start.y) + around + seq![' ', 't', 'o', ' ']
        + fixed4(s.end.x) + comma + fixed4(s.end.y) + seq![')']
}

impl<N: Scalar> Segment<N> {
    /// The straight segment from `start` to `end`; none exactly where the
    /// endpoints are invalid.
    pub fn line(start: P2<N>, end: P2<N>) -> (r: Option<Segment<N>>)
        ensures
            r == line_spec(start, end),
            r is Some <==> !invalid_spec(start, end),
    {
        if start_end_invalid(start, end) {
            None
        } else {
            let chord = end.minus(start);
            Some(Segment {
                start,
                end,
                length: chord.norm(),
                bend: Bend::Straight { direction: chord.normalize() },
            })
        }
    }

    /// The arc from `start`, setting out in the unit `direction`, to `end`;
    /// the straight segment where `direction` already points along the chord;
    /// none exactly where the endpoints are invalid.
    pub fn arc_with_direction(start: P2<N>, direction: V2<N>, end: P2<N>) -> (r: Option<Segment<N>>)
        ensures
            r == arc_spec(start, direction, end),
            r is Some <==> !invalid_spec(start, end),
            !invalid_spec(start, end) ==> (r->0.bend is Straight <==> along_chord(start, direction, end)),
            along_chord(start, direction, end) ==> r == line_spec(start, end),
    {
        if start_end_invalid(start, end) {
            None
        } else if direction.rough_eq_by(end.minus(start).normalize(), direction_tolerance()) {
            Segment::line(start, end)
        } else {
            let half_chord = end.minus(start).scaled(N::from_ratio(1, 2));
            let signed_radius = half_chord.norm_squared().divided_by(
                direction.orthogonal().dot(half_chord),
            );
            let center = start.plus(direction.orthogonal().scaled(signed_radius));
            let angle_span = angle_along_to(start.minus(center), direction, end.minus(center));
            Some(Segment {
                start,
                end,
                length: angle_span.times(signed_radius.absolute()),
                bend: Bend::Arc { center, signed_radius },
            })
        }
    }

    fn biarc_connection(
        start: P2<N>,
        start_direction: V2<N>,
        end: P2<N>,
        end_direction: V2<N>,
    ) -> (r: Option<(P2<N>, V2<N>)>)
        ensures
            r == connection_spec(start, start_direction, end, end_direction),
    {
        let zero = N::from_ratio(0, 1);
        let start_ray = Line { start, direction: start_direction };
        let end_ray = Line { start: end, direction: end_direction.negated() };
        match start_ray.intersect(&end_ray) {
            LineMeeting::Coincident => None,
            LineMeeting::Crossing { along_a, along_b, position } => {
                if zero.less_than(along_a) && zero.less_than(along_b) {
                    Some(Segment::crossing_connection(start, start_direction, end, end_direction, position))
                } else {
                    Some(Segment::offset_connection(start, start_direction, end, end_direction))
                }
            },
            LineMeeting::Apart => Some(Segment::offset_connection(start, start_direction, end, end_direction)),
        }
    }

    fn crossing_connection(
        start: P2<N>,
        start_direction: V2<N>,
        end: P2<N>,
        end_direction: V2<N>,
        position: P2<N>,
    ) -> (r: (P2<N>, V2<N>))
        ensures
            r == crossing_connection(start, start_direction, end, end_direction, position),
    {
        let start_to_crossing = start.minus(position).norm();
        let end_to_crossing = end.minus(position).norm();
        if start_to_crossing.less_than(end_to_crossing) {
            // arc, then straight along the end direction
            (position.plus(end_direction.scaled(start_to_crossing)), end_direction)
        } else {
            // straight along the start direction, then arc
            (position.plus(start_direction.negated().scaled(end_to_crossing)), start_direction)
        }
    }

    fn offset_connection(
        start: P2<N>,
        start_direction: V2<N>,
        end: P2<N>,
        end_direction: V2<N>,
    ) -> (r: (P2<N>, V2<N>))
        ensures
            r == offset_connection(start, start_direction, end, end_direction),
    {
        let zero = N::from_ratio(0, 1);
        let v = end.minus(start);
        let same_direction = start_direction.rough_eq_by(end_direction, direction_tolerance());
        let end_square = rough_eq(v.dot(end_direction), zero);
        if same_direction && end_square {
            // the chain turns back through the middle of the chord
            (start.midpoint(end), start_direction.negated())
        } else {
            let d = if same_direction {
                v.dot(v).divided_by(N::from_ratio(4, 1).times(v.dot(end_direction)))
            } else {
                let one = N::from_ratio(1, 1);
                let two = N::from_ratio(2, 1);
                let v_dot_t = v.dot(start_direction.plus(end_direction));
                let one_minus_cos = one.minus(start_direction.dot(end_direction));
                let discriminant = v_dot_t.times(v_dot_t).plus(
                    two.times(one_minus_cos).times(v.dot(v)),
                );
                v_dot_t.negated().plus(discriminant.square_root()).divided_by(two.times(one_minus_cos))
            };
            let start_offset_point = start.plus(start_direction.scaled(d));
            let end_offset_point = end.plus(end_direction.scaled(d.negated()));
            let connection_direction = end_offset_point.minus(start_offset_point).normalize();
            (start_offset_point.plus(connection_direction.scaled(d)), connection_direction)
        }
    }

    /// A chain of one or two segments from `start`, setting out in
    /// `start_direction`, to `end`, arriving in `end_direction`: the single
    /// arc where it already arrives in `end_direction`, the straight chord
    /// where the endpoints are close, else two parts joined at a connection
    /// point. None where the endpoints are invalid or the tangent rays are one
    /// line.
    pub fn biarc(
        start: P2<N>,
        start_direction: V2<N>,
        end: P2<N>,
        end_direction: V2<N>,
    ) -> (r: Option<Vec<Segment<N>>>)
        ensures
            match r {
                Some(chain) => biarc_spec(start, start_direction, end, end_direction) == Some(chain@),
                None => biarc_spec(start, start_direction, end, end_direction) is None,
            },
            r matches Some(chain) ==> joins(chain@, start, end),
            invalid_spec(start, end) ==> r is None,
            !invalid_spec(start, end) && v_rough_eq_by(
                end_direction_spec(arc_spec(start, start_direction, end)->0),
                end_direction,
                direction_tolerance_spec(),
            ) ==> (r matches Some(chain) && chain@ == seq![arc_spec(start, start_direction, end)->0]),
            !invalid_spec(start, end) && !v_rough_eq_by(
                end_direction_spec(arc_spec(start, start_direction, end)->0),
                end_direction,
                direction_tolerance_spec(),
            ) && norm(p_minus(end, start)).spec_less_than(max_simple_line_length_spec()) ==> (r matches Some(
                chain,
            ) && chain@ == seq![line_spec(start, end)->0]),
    {
        if start_end_invalid(start, end) {
            return None;
        }
        let simple_curve = match Segment::arc_with_direction(start, start_direction, end) {
            Some(s) => s,
            None => {
                return None;
            },
        };
        if simple_curve.end_direction().rough_eq_by(end_direction, direction_tolerance()) {
            return Some(single(simple_curve));
        }
        if end.minus(start).norm().less_than(max_simple_line_length()) {
            return match Segment::line(start, end) {
                Some(s) => Some(single(s)),
                None => None,
            };
        }
        let (connection_position, connection_direction) = match Segment::biarc_connection(
            start,
            start_direction,
            end,
            end_direction,
        ) {
            Some(c) => c,
            None => {
                return None;
            },
        };
        let r = if start.rough_eq_by(connection_position, min_start_to_end()) {
            match Segment::arc_with_direction(connection_position, connection_direction, end) {
                Some(s) => Some(single(s)),
                None => None,
            }
        } else if end.rough_eq_by(connection_position, min_start_to_end()) {
            match Segment::arc_with_direction(start, start_direction, connection_position) {
                Some(s) => Some(single(s)),
                None => None,
            }
        } else {
            let first = Segment::arc_with_direction(start, start_direction, connection_position);
            let second = Segment::arc_with_direction(connection_position, connection_direction, end);
            match (first, second) {
                (Some(a), Some(b)) => {
                    let mut chain: Vec<Segment<N>> = Vec::new();
                    chain.push(a);
                    chain.push(b);
                    assert(chain@ =~= seq![a, b]);
                    Some(chain)
                },
                _ => None,
            }
        };
        proof {
            if biarc_spec(start, start_direction, end, end_direction) is Some {
                lemma_biarc_joins(start, start_direction, end, end_direction);
            }
        }
        r
    }

    pub fn is_linear(&self) -> (r: bool)
        ensures
            r == self.bend is Straight,
    {
        match self.bend {
            Bend::Straight { .. } => true,
            Bend::Arc { .. } => false,
        }
    }

    /// The center of an arc's circle.
    pub fn center(&self) -> (r: P2<N>)
        requires
            self.bend is Arc,
        ensures
            r == self.bend->center,
    {
        match self.bend {
            Bend::Arc { center, .. } => center,
            Bend::Straight { .. } => self.start,
        }
    }

    /// The radius of an arc's circle; zero for a straight segment.
    pub fn radius(&self) -> (r: N)
        ensures
            r == radius_spec(*self),
    {
        match self.bend {
            Bend::Arc { signed_radius, .. } => signed_radius.absolute(),
            Bend::Straight { .. } => N::from_ratio(0, 1),
        }
    }

    /// The signed radius: positive for a clockwise arc, negative for a
    /// counterclockwise one, zero for a straight segment.
    pub fn signed_radius(&self) -> (r: N)
        ensures
            r == signed_radius_spec(*self),
    {
        match self.bend {
            Bend::Arc { signed_radius, .. } => signed_radius,
            Bend::Straight { .. } => N::from_ratio(0, 1),
        }
    }

    /// The angle that an arc turns through, signed as its radius is.
    pub fn signed_angle(&self) -> (r: N)
        ensures
            r == self.length.spec_divided_by(signed_radius_spec(*self)),
    {
        self.length.divided_by(self.signed_radius())
    }

    pub fn length(&self) -> (r: N)
        ensures
            r == self.length,
    {
        self.length
    }

    pub fn start(&self) -> (r: P2<N>)
        ensures
            r == self.start,
    {
        self.start
    }

    pub fn end(&self) -> (r: P2<N>)
        ensures
            r == self.end,
    {
        self.end
    }

    /// The point at `distance` along the segment from its start.
    pub fn along(&self, distance: N) -> (r: P2<N>)
        ensures
            r == along_spec(*self, distance),
    {
        match self.bend {
            Bend::Straight { direction } => self.start.plus(direction.scaled(distance)),
            Bend::Arc { center, signed_radius } => {
                let center_to_start = self.start.minus(center);
                let angle_to_rotate = distance.divided_by(signed_radius.negated());
                center.plus(rotated(center_to_start, angle_to_rotate))
            },
        }
    }

    /// The unit tangent at `distance` along the segment from its start.
    pub fn direction_along(&self, distance: N) -> (r: V2<N>)
        ensures
            r == direction_along_spec(*self, distance),
    {
        match self.bend {
            Bend::Straight { direction } => direction,
            Bend::Arc { center, signed_radius } => {
                let center_to_start = self.start.minus(center);
                let angle_to_rotate = distance.divided_by(signed_radius.negated());
                let center_to_point = rotated(center_to_start, angle_to_rotate);
                center_to_point.normalize().orthogonal().scaled(signum(signed_radius))
            },
        }
    }

    /// The unit tangent at the start.
    pub fn start_direction(&self) -> (r: V2<N>)
        ensures
            r == start_direction_spec(*self),
    {
        match self.bend {
            Bend::Straight { direction } => direction,
            Bend::Arc { center, signed_radius } => {
                self.start.minus(center).normalize().orthogonal().scaled(signum(signed_radius))
            },
        }
    }

    /// The unit tangent at the end.
    pub fn end_direction(&self) -> (r: V2<N>)
        ensures
            r == end_direction_spec(*self),
    {
        match self.bend {
            Bend::Straight { direction } => direction,
            Bend::Arc { center, signed_radius } => {
                self.end.minus(center).normalize().orthogonal().scaled(signum(signed_radius))
            },
        }
    }

    /// The point halfway along.
    pub fn midpoint(&self) -> (r: P2<N>)
        ensures
            r == along_spec(*self, half_length(*self)),
    {
        self.along(self.length.divided_by(N::from_ratio(2, 1)))
    }

    /// The unit tangent halfway along.
    pub fn midpoint_direction(&self) -> (r: V2<N>)
        ensures
            r == direction_along_spec(*self, half_length(*self)),
    {
        self.direction_along(self.length.divided_by(N::from_ratio(2, 1)))
    }

    /// The same course traversed from `end` to `start`: the direction, or the
    /// sense of turning, reversed.
    pub fn reverse(&self) -> (r: Segment<N>)
        ensures
            r == reversed_spec(*self),
    {
        match self.bend {
            Bend::Straight { direction } => Segment {
                start: self.end,
                end: self.start,
                length: self.length,
                bend: Bend::Straight { direction: direction.negated() },
            },
            Bend::Arc { center, signed_radius } => Segment {
                start: self.end,
                end: self.start,
                length: self.length,
                bend: Bend::Arc { center, signed_radius: signed_radius.negated() },
            },
        }
    }

    /// The part between the distances `start` and `end` along this segment,
    /// clamped to `[0, length]`; none where that part is shorter than the
    /// least endpoint distance.
    pub fn subsection(&self, start: N, end: N) -> (r: Option<Segment<N>>)
        ensures
            r == subsection_spec(*self, start, end),
            r matches Some(p) ==> p.start == along_spec(*self, maximum_spec(start, zero()))
                && p.end == along_spec(*self, minimum_spec(end, self.length)),
    {
        let zero = N::from_ratio(0, 1);
        let true_start = maximum(start, zero);
        let true_end = minimum(end, self.length);
        if true_end.minus(true_start).less_than(min_start_to_end()) {
            None
        } else if self.is_linear() || rough_eq(true_end, zero) || rough_eq(true_start, self.length) {
            Segment::line(self.along(true_start), self.along(true_end))
        } else {
            Segment::arc_with_direction(
                self.along(true_start),
                self.direction_along(true_start),
                self.along(true_end),
            )
        }
    }

    /// The segment moved `shift_to_right` to the right of its course (to the
    /// left where negative). A straight segment moves both endpoints square
    /// to its direction; an arc moves each endpoint square to its own tangent
    /// and is rebuilt through them with its start tangent unchanged, which
    /// approximates the concentric arc.
    pub fn shift_orthogonally(&self, shift_to_right: N) -> (r: Option<Segment<N>>)
        ensures
            r == shifted_spec(*self, shift_to_right),
    {
        if self.is_linear() {
            let offset = self.start_direction().orthogonal().scaled(shift_to_right);
            Segment::line(self.start.plus(offset), self.end.plus(offset))
        } else {
            let start = self.start.plus(self.start_direction().orthogonal().scaled(shift_to_right));
            let end = self.end.plus(self.end_direction().orthogonal().scaled(shift_to_right));
            Segment::arc_with_direction(start, self.start_direction(), end)
        }
    }

    /// The nearest point of the segment to `point`, with its distance along
    /// the segment.
    pub fn project_with_tolerance(&self, point: P2<N>, tolerance: N) -> (r: Option<(N, P2<N>)>)
        ensures
            r == projection_spec(*self, point, tolerance),
    {
        let zero = N::from_ratio(0, 1);
        if point.minus(self.start).norm().less_than(tolerance) {
            Some((zero, self.start))
        } else if point.minus(self.end).norm().less_than(tolerance) {
            Some((self.length, self.end))
        } else {
            match self.bend {
                Bend::Straight { direction } => {
                    let line_offset = direction.dot(point.minus(self.start));
                    if zero.at_most(line_offset) && line_offset.at_most(self.length) {
                        Some((line_offset, self.start.plus(direction.scaled(line_offset))))
                    } else {
                        None
                    }
                },
                Bend::Arc { center, .. } => {
                    let radius = self.radius();
                    let angle_start_to_point = angle_along_to(
                        self.start.minus(center),
                        self.start_direction(),
                        point.minus(center),
                    );
                    let angle_span = self.length.divided_by(radius);
                    if angle_start_to_point.at_most(angle_span) {
                        let projected = center.plus(point.minus(center).normalize().scaled(radius));
                        Some((minimum(angle_start_to_point.times(radius), self.length), projected))
                    } else {
                        None
                    }
                },
            }
        }
    }

    pub fn project(&self, point: P2<N>) -> (r: Option<(N, P2<N>)>)
        ensures
            r == projection_spec(*self, point, thickness_spec()),
    {
        self.project_with_tolerance(point, thickness())
    }

    /// As `project_with_tolerance`, and none where the nearest point is not
    /// closer than `max_distance`.
    pub fn project_with_max_distance(&self, point: P2<N>, max_distance: N, tolerance: N) -> (r: Option<
        (N, P2<N>),
    >)
        ensures
            r == within_max_distance(projection_spec(*self, point, tolerance), point, max_distance),
    {
        keep_within(self.project_with_tolerance(point, tolerance), point, max_distance)
    }

    /// Distance from `point` to its projection, or to the nearer endpoint
    /// where it has none.
    pub fn distance_to(&self, point: P2<N>) -> (r: N)
        ensures
            r == distance_spec(*self, point),
    {
        match self.project(point) {
            Some((_offset, projected_point)) => point.minus(projected_point).norm(),
            None => minimum(self.start.minus(point).norm(), self.end.minus(point).norm()),
        }
    }

    /// `point` lies within half the nominal width of the segment.
    pub fn includes(&self, point: P2<N>) -> (r: bool)
        ensures
            r == distance_spec(*self, point).spec_less_than(half_thickness()),
    {
        self.distance_to(point).less_than(thickness::<N>().divided_by(N::from_ratio(2, 1)))
    }

    /// Both segments start, end and pass their midpoints within `tolerance`
    /// of each other.
    pub fn rough_eq_by(&self, other: &Segment<N>, tolerance: N) -> (r: bool)
        ensures
            r == segments_rough_eq(*self, *other, tolerance),
    {
        self.start.rough_eq_by(other.start, tolerance) && self.end.rough_eq_by(other.end, tolerance)
            && self.midpoint().rough_eq_by(other.midpoint(), tolerance)
    }

    /// A box that holds the segment with its nominal width: for an arc, the
    /// box round its whole circle.
    pub fn bounding_box(&self) -> (r: BoundingBox<N>)
        ensures
            r == bounding_box_spec(*self),
    {
        let t = thickness::<N>();
        match self.bend {
            Bend::Straight { .. } => BoundingBox {
                min: P2::new(
                    minimum(self.start.x, self.end.x).minus(t),
                    minimum(self.start.y, self.end.y).minus(t),
                ),
                max: P2::new(
                    maximum(self.start.x, self.end.x).plus(t),
                    maximum(self.start.y, self.end.y).plus(t),
                ),
            },
            Bend::Arc { center, .. } => {
                let reach = self.radius().plus(t);
                let half_diagonal = V2::new(reach, reach);
                BoundingBox { min: center.plus(half_diagonal.negated()), max: center.plus(half_diagonal) }
            },
        }
    }

    /// The signed angle that the segment sweeps as seen from `point`. This is
    /// the angle that the chord subtends, except where `point` lies between
    /// the chord and an arc: there the arc passes round it, and sweeps the
    /// rest of the full turn in the opposite sense.
    pub fn winding_angle(&self, point: P2<N>) -> (r: N)
        ensures
            r == winding_spec(*self, point),
            self.bend is Straight ==> r == chord_angle(*self, point),
    {
        let simple_angle = signed_angle_to(self.start.minus(point), self.end.minus(point));
        match self.bend {
            Bend::Straight { .. } => simple_angle,
            Bend::Arc { center, signed_radius } => {
                let chord_midpoint = self.start.midpoint(self.end);
                let sagitta_direction = self.end.minus(self.start).normalize().orthogonal().scaled(
                    signum(signed_radius),
                );
                let inside_circle = point.minus(center).norm().less_than(self.radius());
                let on_bulge_side = center.minus(chord_midpoint).dot(sagitta_direction).less_than(
                    center.minus(point).dot(sagitta_direction),
                );
                if inside_circle && on_bulge_side {
                    let full_turn = N::from_ratio(2, 1).times(N::half_turn());
                    full_turn.minus(simple_angle.absolute()).times(signum(simple_angle).negated())
                } else {
                    simple_angle
                }
            },
        }
    }

    /// The segment in the vector path syntax: `M x0 y0 L x1 y1` when straight,
    /// `M x0 y0 A r r 0 F S x1 y1` for an arc, with `F` set when the arc spans
    /// more than half a turn and `S` when it turns counterclockwise.
    pub fn to_svg(&self) -> (r: String)
        ensures
            self.bend is Straight ==> r@ == line_path_text(
                self.start.x.spec_text()@,
                self.start.y.spec_text()@,
                self.end.x.spec_text()@,
                self.end.y.spec_text()@,
            ),
            self.bend is Arc ==> r@ == arc_path_text(
                self.start.x.spec_text()@,
                self.start.y.spec_text()@,
                radius_spec(*self).spec_text()@,
                N::spec_half_turn().spec_less_than(self.length.spec_divided_by(radius_spec(*self))),
                self.bend->signed_radius.spec_less_than(zero()),
                self.end.x.spec_text()@,
                self.end.y.spec_text()@,
            ),
    {
        let sx = self.start.x.to_text();
        let sy = self.start.y.to_text();
        let ex = self.end.x.to_text();
        let ey = self.end.y.to_text();
        match self.bend {
            Bend::Straight { .. } => line_path(sx.as_str(), sy.as_str(), ex.as_str(), ey.as_str()),
            Bend::Arc { signed_radius, .. } => {
                let radius = self.radius();
                let large_arc = N::half_turn().less_than(self.length.divided_by(radius));
                let sweep = signed_radius.less_than(N::from_ratio(0, 1));
                let rt = radius.to_text();
                arc_path(
                    sx.as_str(),
                    sy.as_str(),
                    rt.as_str(),
                    large_arc,
                    sweep,
                    ex.as_str(),
                    ey.as_str(),
                )
            },
        }
    }

    /// A short description for debugging, with coordinates to four places:
    /// `LineSeg(x0, y0 to x1, y1)` or `ArcSeg(x0, y0 around cx, cy to x1, y1)`.
    pub fn debug_text(&self) -> (r: String)
        ensures
            r@ == debug_text_spec(*self),
    {
        proof {
            reveal_strlit("LineSeg(");
            reveal_strlit("ArcSeg(");
            reveal_strlit(", ");
            reveal_strlit(" around ");
            reveal_strlit(" to ");
            reveal_strlit(")");
        }
        let mut text = match self.bend {
            Bend::Straight { .. } => String::from_str("LineSeg("),
            Bend::Arc { .. } => String::from_str("ArcSeg("),
        };
        text.append(self.start.x.to_fixed_text(4).as_str());
        text.append(", ");
        text.append(self.start.y.to_fixed_text(4).as_str());
        let ghost after_start = text@;
        match self.bend {
            Bend::Arc { center, .. } => {
                text.append(" around ");
                text.append(center.x.to_fixed_text(4).as_str());
                text.append(", ");
                text.append(center.y.to_fixed_text(4).as_str());
            },
            Bend::Straight { .. } => {},
        }
        text.append(" to ");
        text.append(self.end.x.to_fixed_text(4).as_str());
        text.append(", ");
        text.append(self.end.y.to_fixed_text(4).as_str());
        text.append(")");
        assert(text@ =~= debug_text_spec(*self));
        text
    }
}

impl<N: Scalar> Curve<N> for Segment<N> {
    fn project_with_tolerance(&self, point: P2<N>, tolerance: N) -> Option<(N, P2<N>)> {
        Segment::project_with_tolerance(self, point, tolerance)
    }

    fn project(&self, point: P2<N>) -> Option<(N, P2<N>)> {
        Segment::project(self, point)
    }

    fn project_with_max_distance(&self, point: P2<N>, max_distance: N, tolerance: N) -> Option<
        (N, P2<N>),
    > {
        Segment::project_with_max_distance(self, point, max_distance, tolerance)
    }

    fn includes(&self, point: P2<N>) -> bool {
        Segment::includes(self, point)
    }

    fn distance_to(&self, point: P2<N>) -> N {
        Segment::distance_to(self, point)
    }
}

impl<N: Scalar> FiniteCurve<N> for Segment<N> {
    fn length(&self) -> N {
        Segment::length(self)
    }

    fn along(&self, distance: N) -> P2<N> {
        Segment::along(self, distance)
    }

    fn direction_along(&self, distance: N) -> V2<N> {
        Segment::direction_along(self, distance)
    }

    fn start(&self) -> P2<N> {
        Segment::start(self)
    }

    fn start_direction(&self) -> V2<N> {
        Segment::start_direction(self)
    }

    fn end(&self) -> P2<N> {
        Segment::end(self)
    }

    fn end_direction(&self) -> V2<N> {
        Segment::end_direction(self)
    }

    fn midpoint(&self) -> P2<N> {
        Segment::midpoint(self)
    }

    fn midpoint_direction(&self) -> V2<N> {
        Segment::midpoint_direction(self)
    }

    fn reverse(&self) -> Segment<N> {
        Segment::reverse(self)
    }

    fn subsection(&self, start: N, end: N) -> Option<Segment<N>> {
        Segment::subsection(self, start, end)
    }

    fn shift_orthogonally(&self, shift_to_right: N) -> Option<Segment<N>> {
        Segment::shift_orthogonally(self, shift_to_right)
    }
}

} // verus!
