use descartes::curves::{Circle, Curve, FiniteCurve, Line, LineMeeting};
use descartes::scalar::Scalar;
use descartes::segment::{Bend, Segment};
use descartes::svg::{arc_path, line_path};
use descartes::vector::{P2, V2};

#[derive(Clone, Copy, Debug, PartialEq)]
struct F(f64);

impl Scalar for F {
    fn spec_from_ratio(numerator: i64, denominator: i64) -> F {
        F::from_ratio(numerator, denominator)
    }
    fn spec_half_turn() -> F {
        F::half_turn()
    }
    fn spec_plus(self, other: F) -> F {
        self.plus(other)
    }
    fn spec_minus(self, other: F) -> F {
        self.minus(other)
    }
    fn spec_times(self, other: F) -> F {
        self.times(other)
    }
    fn spec_divided_by(self, other: F) -> F {
        self.divided_by(other)
    }
    fn spec_negated(self) -> F {
        self.negated()
    }
    fn spec_absolute(self) -> F {
        self.absolute()
    }
    fn spec_square_root(self) -> F {
        self.square_root()
    }
    fn spec_atan2(self, x: F) -> F {
        self.atan2(x)
    }
    fn spec_arc_cosine(self) -> F {
        self.arc_cosine()
    }
    fn spec_sine(self) -> F {
        self.sine()
    }
    fn spec_cosine(self) -> F {
        self.cosine()
    }
    fn spec_less_than(self, other: F) -> bool {
        self.less_than(other)
    }
    fn spec_at_most(self, other: F) -> bool {
        self.at_most(other)
    }
    fn spec_is_nan(self) -> bool {
        self.is_nan()
    }
    fn spec_text(self) -> String {
        self.to_text()
    }
    fn spec_fixed_text(self, decimals: usize) -> String {
        self.to_fixed_text(decimals)
    }
    fn from_ratio(numerator: i64, denominator: i64) -> F {
        F(numerator as f64 / denominator as f64)
    }
    fn half_turn() -> F {
        F(std::f64::consts::PI)
    }
    fn plus(self, other: F) -> F {
        F(self.0 + other.0)
    }
    fn minus(self, other: F) -> F {
        F(self.0 - other.0)
    }
    fn times(self, other: F) -> F {
        F(self.0 * other.0)
    }
    fn divided_by(self, other: F) -> F {
        F(self.0 / other.0)
    }
    fn negated(self) -> F {
        F(-self.0)
    }
    fn absolute(self) -> F {
        F(self.0.abs())
    }
    fn square_root(self) -> F {
        F(self.0.sqrt())
    }
    fn atan2(self, x: F) -> F {
        F(self.0.atan2(x.0))
    }
    fn arc_cosine(self) -> F {
        F(self.0.acos())
    }
    fn sine(self) -> F {
        F(self.0.sin())
    }
    fn cosine(self) -> F {
        F(self.0.cos())
    }
    fn less_than(self, other: F) -> bool {
        self.0 < other.0
    }
    fn at_most(self, other: F) -> bool {
        self.0 <= other.0
    }
    fn is_nan(self) -> bool {
        self.0.is_nan()
    }
    fn to_text(self) -> String {
        format!("{}", self.0)
    }
    fn to_fixed_text(self, decimals: usize) -> String {
        format!("{:.*}", decimals, self.0)
    }
}

const EPS: f64 = 1e-6;

fn p(x: f64, y: f64) -> P2<F> {
    P2::new(F(x), F(y))
}

fn v(x: f64, y: f64) -> V2<F> {
    V2::new(F(x), F(y))
}

fn close(a: F, b: f64) -> bool {
    (a.0 - b).abs() < EPS
}

fn close_p(a: P2<F>, x: f64, y: f64) -> bool {
    close(a.x, x) && close(a.y, y)
}

fn close_v(a: V2<F>, x: f64, y: f64) -> bool {
    close(a.x, x) && close(a.y, y)
}

fn near_p(a: P2<F>, b: P2<F>, tolerance: f64) -> bool {
    ((a.x.0 - b.x.0).powi(2) + (a.y.0 - b.y.0).powi(2)).sqrt() <= tolerance
}

fn near_v(a: V2<F>, b: V2<F>, tolerance: f64) -> bool {
    ((a.x.0 - b.x.0).powi(2) + (a.y.0 - b.y.0).powi(2)).sqrt() <= tolerance
}

#[test]
fn line_between_distinct_points() {
    let s = Segment::line(p(0.0, 0.0), p(3.0, 4.0)).unwrap();
    assert!(s.is_linear());
    assert!(close(s.length(), 5.0));
    assert!(close_p(s.along(F(0.0)), 0.0, 0.0));
    assert!(close_p(s.along(s.length()), 3.0, 4.0));
    assert!(close_v(s.start_direction(), 0.6, 0.8));
    assert!(close_v(s.end_direction(), 0.6, 0.8));
    assert!(close_p(s.midpoint(), 1.5, 2.0));
}

#[test]
fn line_rejects_close_endpoints() {
    assert!(Segment::line(p(0.0, 0.0), p(0.0, 0.001)).is_none());
    assert!(Segment::line(p(0.0, 0.0), p(0.0, 0.0099)).is_none());
    assert!(Segment::line(p(0.0, 0.0), p(0.0, 0.01)).is_some());
    assert!(Segment::line(p(0.0, 0.0), p(0.0, 0.011)).is_some());
}

#[test]
fn line_rejects_nan() {
    assert!(Segment::line(p(f64::NAN, 0.0), p(1.0, 0.0)).is_none());
    assert!(Segment::line(p(0.0, 0.0), p(1.0, f64::NAN)).is_none());
    assert!(Segment::arc_with_direction(p(0.0, f64::NAN), v(1.0, 0.0), p(1.0, 1.0)).is_none());
    assert!(Segment::biarc(p(0.0, 0.0), v(1.0, 0.0), p(f64::NAN, 1.0), v(1.0, 0.0)).is_none());
}

#[test]
fn half_circle_arc() {
    let s = Segment::arc_with_direction(p(0.0, 0.0), v(0.0, 1.0), p(2.0, 0.0)).unwrap();
    assert!(!s.is_linear());
    assert!(close_p(s.center(), 1.0, 0.0));
    assert!(close(s.radius(), 1.0));
    assert!(close(s.signed_radius(), 1.0));
    assert!(close(s.length(), std::f64::consts::PI));
    assert!(close(s.signed_angle(), std::f64::consts::PI));
    assert!(close_p(s.along(F(0.0)), 0.0, 0.0));
    assert!(close_p(s.along(s.length()), 2.0, 0.0));
    assert!(close_p(s.midpoint(), 1.0, 1.0));
    assert!(close_v(s.start_direction(), 0.0, 1.0));
    assert!(close_v(s.end_direction(), 0.0, -1.0));
    assert!(close_v(s.midpoint_direction(), 1.0, 0.0));
}

#[test]
fn quarter_circle_arc() {
    let s = Segment::arc_with_direction(p(0.0, 0.0), v(1.0, 0.0), p(1.0, 1.0)).unwrap();
    assert!(close_p(s.center(), 0.0, 1.0));
    assert!(close(s.signed_radius(), -1.0));
    assert!(close(s.length(), std::f64::consts::FRAC_PI_2));
    assert!(close(s.signed_angle(), -std::f64::consts::FRAC_PI_2));
    assert!(close_p(s.along(s.length()), 1.0, 1.0));
    assert!(near_v(s.start_direction(), v(1.0, 0.0), 1e-4));
    assert!(close_v(s.end_direction(), 0.0, 1.0));
    assert!(close_v(s.direction_along(s.length()), 0.0, 1.0));
}

#[test]
fn arc_along_chord_degrades_to_line() {
    let s = Segment::arc_with_direction(p(0.0, 0.0), v(1.0, 0.0), p(1.0, 0.0)).unwrap();
    assert!(s.is_linear());
    assert!(close(s.length(), 1.0));
}

#[test]
fn reverse_twice_line() {
    let s = Segment::line(p(1.0, 2.0), p(4.0, 6.0)).unwrap();
    let r = s.reverse();
    assert!(close_p(r.start(), 4.0, 6.0));
    assert!(close_p(r.end(), 1.0, 2.0));
    assert!(close_v(r.start_direction(), -0.6, -0.8));
    assert!(s.reverse().reverse().rough_eq_by(&s, F(1e-6)));
}

#[test]
fn reverse_twice_arc() {
    let s = Segment::arc_with_direction(p(0.0, 0.0), v(1.0, 0.0), p(1.0, 1.0)).unwrap();
    let r = s.reverse();
    assert!(close_p(r.start(), 1.0, 1.0));
    assert!(close_v(r.start_direction(), 0.0, -1.0));
    assert!(close_p(r.midpoint(), s.midpoint().x.0, s.midpoint().y.0));
    assert!(close_v(r.end_direction(), -1.0, 0.0));
    let twice = r.reverse();
    assert!(twice.rough_eq_by(&s, F(1e-6)));
    assert!(close(twice.signed_radius(), -1.0));
}

#[test]
fn whole_subsection_is_identity() {
    let l = Segment::line(p(0.0, 0.0), p(5.0, 0.0)).unwrap();
    assert!(l.subsection(F(0.0), l.length()).unwrap().rough_eq_by(&l, F(1e-6)));
    let a = Segment::arc_with_direction(p(0.0, 0.0), v(1.0, 0.0), p(1.0, 1.0)).unwrap();
    let sub = a.subsection(F(0.0), a.length()).unwrap();
    assert!(!sub.is_linear());
    assert!(sub.rough_eq_by(&a, F(1e-4)));
}

#[test]
fn subsection_clamps_and_rejects_short_ranges() {
    let l = Segment::line(p(0.0, 0.0), p(5.0, 0.0)).unwrap();
    let clamped = l.subsection(F(-1.0), F(10.0)).unwrap();
    assert!(close_p(clamped.start(), 0.0, 0.0));
    assert!(close_p(clamped.end(), 5.0, 0.0));
    let middle = l.subsection(F(1.0), F(3.0)).unwrap();
    assert!(close_p(middle.start(), 1.0, 0.0));
    assert!(close_p(middle.end(), 3.0, 0.0));
    assert!(close(middle.length(), 2.0));
    assert!(l.subsection(F(1.0), F(1.005)).is_none());
    assert!(l.subsection(F(4.0), F(2.0)).is_none());
}

#[test]
fn shift_line_to_the_right() {
    let l = Segment::line(p(0.0, 0.0), p(3.0, 0.0)).unwrap();
    let shifted = l.shift_orthogonally(F(1.0)).unwrap();
    assert!(close_p(shifted.start(), 0.0, -1.0));
    assert!(close_p(shifted.end(), 3.0, -1.0));
    let left = l.shift_orthogonally(F(-2.0)).unwrap();
    assert!(close_p(left.start(), 0.0, 2.0));
}

#[test]
fn shift_arc_outwards() {
    let a = Segment::arc_with_direction(p(0.0, 0.0), v(1.0, 0.0), p(1.0, 1.0)).unwrap();
    let shifted = a.shift_orthogonally(F(1.0)).unwrap();
    assert!(close_p(shifted.start(), 0.0, -1.0));
    assert!(close_p(shifted.end(), 2.0, 1.0));
    assert!(close_p(shifted.center(), 0.0, 1.0));
    assert!(close(shifted.radius(), 2.0));
}

fn assert_chain(chain: &[Segment<F>], start: P2<F>, d1: V2<F>, end: P2<F>, d2: V2<F>) {
    assert!(!chain.is_empty());
    assert!(near_p(chain[0].start(), start, 0.01));
    assert!(near_p(chain[chain.len() - 1].end(), end, 0.01));
    for i in 0..chain.len() - 1 {
        assert!(near_p(chain[i].end(), chain[i + 1].start(), 1e-9));
    }
    assert!(near_v(chain[0].start_direction(), d1, 1e-3));
    assert!(near_v(chain[chain.len() - 1].end_direction(), d2, 1e-3));
}

#[test]
fn biarc_single_arc() {
    let chain = Segment::biarc(p(0.0, 0.0), v(1.0, 0.0), p(10.0, 10.0), v(0.0, 1.0)).unwrap();
    assert_eq!(chain.len(), 1);
    assert!(close_p(chain[0].center(), 0.0, 10.0));
    assert_chain(&chain, p(0.0, 0.0), v(1.0, 0.0), p(10.0, 10.0), v(0.0, 1.0));
}

#[test]
fn biarc_s_curve() {
    let chain = Segment::biarc(p(0.0, 0.0), v(1.0, 0.0), p(10.0, 5.0), v(1.0, 0.0)).unwrap();
    assert_eq!(chain.len(), 2);
    assert!(close_p(chain[0].end(), 5.0, 2.5));
    assert!(close_v(chain[1].start_direction(), 0.6, 0.8));
    assert_chain(&chain, p(0.0, 0.0), v(1.0, 0.0), p(10.0, 5.0), v(1.0, 0.0));
}

#[test]
fn biarc_arc_then_line() {
    let chain = Segment::biarc(p(0.0, 0.0), v(1.0, 0.0), p(10.0, 20.0), v(0.0, 1.0)).unwrap();
    assert_eq!(chain.len(), 2);
    assert!(!chain[0].is_linear());
    assert!(chain[1].is_linear());
    assert!(close_p(chain[0].end(), 10.0, 10.0));
    assert_chain(&chain, p(0.0, 0.0), v(1.0, 0.0), p(10.0, 20.0), v(0.0, 1.0));
}

#[test]
fn biarc_general_directions() {
    let d2 = v(0.0, -1.0);
    let chain = Segment::biarc(p(0.0, 0.0), v(1.0, 0.0), p(4.0, 6.0), d2).unwrap();
    assert_chain(&chain, p(0.0, 0.0), v(1.0, 0.0), p(4.0, 6.0), d2);
}

#[test]
fn biarc_short_chord_is_line() {
    let chain = Segment::biarc(p(0.0, 0.0), v(0.0, 1.0), p(0.3, 0.0), v(0.0, 1.0)).unwrap();
    assert_eq!(chain.len(), 1);
    assert!(chain[0].is_linear());
    assert!(close(chain[0].length(), 0.3));
}

#[test]
fn biarc_rejects_close_endpoints() {
    assert!(Segment::biarc(p(0.0, 0.0), v(1.0, 0.0), p(0.005, 0.0), v(1.0, 0.0)).is_none());
}

#[test]
fn circle_projection_and_distance() {
    let c = Circle { center: p(0.0, 0.0), radius: F(2.0) };
    let (offset, point) = c.project(p(4.0, 0.0)).unwrap();
    assert!(close(offset, 0.0));
    assert!(close_p(point, 2.0, 0.0));
    assert!(close(c.distance_to(p(0.0, 3.0)), 1.0));
    let (quarter, top) = c.project(p(0.0, 5.0)).unwrap();
    assert!(close(quarter, std::f64::consts::PI));
    assert!(close_p(top, 0.0, 2.0));
    assert!(c.includes(p(2.0, 0.0)));
    assert!(!c.includes(p(2.1, 0.0)));
}

#[test]
fn infinite_line_projection_and_distance() {
    let l = Line { start: p(1.0, 1.0), direction: v(1.0, 0.0) };
    let (along, foot) = l.project(p(4.0, 3.0)).unwrap();
    assert!(close(along, 3.0));
    assert!(close_p(foot, 4.0, 1.0));
    let (behind, _) = l.project(p(-2.0, 0.0)).unwrap();
    assert!(close(behind, -3.0));
    assert!(close(l.distance_to(p(7.0, -2.0)), 3.0));
    assert!(l.includes(p(100.0, 1.0)));
}

#[test]
fn lines_meeting() {
    let a = Line { start: p(0.0, 0.0), direction: v(1.0, 0.0) };
    let b = Line { start: p(5.0, 5.0), direction: v(0.0, -1.0) };
    match a.intersect(&b) {
        LineMeeting::Crossing { along_a, along_b, position } => {
            assert!(close(along_a, 5.0));
            assert!(close(along_b, 5.0));
            assert!(close_p(position, 5.0, 0.0));
        }
        _ => panic!("expected a crossing"),
    }
    let c = Line { start: p(0.0, 3.0), direction: v(-1.0, 0.0) };
    assert!(matches!(a.intersect(&c), LineMeeting::Apart));
    let d = Line { start: p(7.0, 0.0), direction: v(1.0, 0.0) };
    assert!(matches!(a.intersect(&d), LineMeeting::Coincident));
}

#[test]
fn segment_projection() {
    let l = Segment::line(p(0.0, 0.0), p(10.0, 0.0)).unwrap();
    let (offset, point) = l.project(p(5.0, 3.0)).unwrap();
    assert!(close(offset, 5.0));
    assert!(close_p(point, 5.0, 0.0));
    assert!(l.project(p(-5.0, 3.0)).is_none());
    let (at_end, end) = l.project(p(10.0, 0.0005)).unwrap();
    assert!(close(at_end, 10.0));
    assert!(close_p(end, 10.0, 0.0));
    assert!(close(l.distance_to(p(-3.0, 4.0)), 5.0));
    assert!(close(l.distance_to(p(5.0, -2.0)), 2.0));
    assert!(l.project_with_max_distance(p(5.0, 3.0), F(2.0), F(0.001)).is_none());
    assert!(l.project_with_max_distance(p(5.0, 1.0), F(2.0), F(0.001)).is_some());
    assert!(l.includes(p(3.0, 0.0002)));
}

#[test]
fn arc_projection() {
    let a = Segment::arc_with_direction(p(0.0, 0.0), v(0.0, 1.0), p(2.0, 0.0)).unwrap();
    let (offset, point) = a.project(p(1.0, 3.0)).unwrap();
    assert!(close(offset, std::f64::consts::FRAC_PI_2));
    assert!(close_p(point, 1.0, 1.0));
    assert!(a.project(p(1.0, -3.0)).is_none());
    assert!(close(a.distance_to(p(1.0, 3.0)), 2.0));
}

#[test]
fn winding_inside_and_outside_bulge() {
    let a = Segment::arc_with_direction(p(0.0, 0.0), v(0.0, 1.0), p(2.0, 0.0)).unwrap();
    let simple = (1.0f64).atan2(-0.75);
    let inside = a.winding_angle(p(1.0, 0.5));
    assert!(inside.0.abs() > std::f64::consts::PI);
    assert!(inside.0 < 0.0);
    assert!(close(inside, -(2.0 * std::f64::consts::PI - simple)));
    let outside = a.winding_angle(p(1.0, -0.5));
    assert!(close(outside, -simple));
    let l = Segment::line(p(0.0, 0.0), p(2.0, 0.0)).unwrap();
    assert!(close(l.winding_angle(p(1.0, 1.0)), std::f64::consts::FRAC_PI_2));
}

#[test]
fn bounding_boxes() {
    let l = Segment::line(p(3.0, 4.0), p(0.0, 0.0)).unwrap();
    let b = l.bounding_box();
    assert!(close_p(b.min, -0.001, -0.001));
    assert!(close_p(b.max, 3.001, 4.001));
    let a = Segment::arc_with_direction(p(0.0, 0.0), v(0.0, 1.0), p(2.0, 0.0)).unwrap();
    let ab = a.bounding_box();
    assert!(close_p(ab.min, -0.001, -1.001));
    assert!(close_p(ab.max, 2.001, 1.001));
}

#[test]
fn svg_of_segments() {
    let l = Segment::line(p(0.0, 0.0), p(3.0, 4.5)).unwrap();
    assert_eq!(l.to_svg(), "M 0 0 L 3 4.5");
    let a = Segment::arc_with_direction(p(0.0, 0.0), v(1.0, 0.0), p(1.0, 1.0)).unwrap();
    assert!(a.to_svg().starts_with("M 0 0 A 1 1 0 0 1 "));
    let exact = Segment {
        start: p(0.0, 0.0),
        end: p(1.0, 1.0),
        length: F(std::f64::consts::FRAC_PI_2),
        bend: Bend::Arc { center: p(0.0, 1.0), signed_radius: F(-1.0) },
    };
    assert_eq!(exact.to_svg(), "M 0 0 A 1 1 0 0 1 1 1");
    let long = Segment {
        start: p(0.0, 0.0),
        end: p(1.0, 1.0),
        length: F(4.0),
        bend: Bend::Arc { center: p(1.0, 0.0), signed_radius: F(1.0) },
    };
    assert_eq!(long.to_svg(), "M 0 0 A 1 1 0 1 0 1 1");
}

#[test]
fn svg_path_pieces() {
    assert_eq!(line_path("1", "2", "3", "4"), "M 1 2 L 3 4");
    assert_eq!(arc_path("0", "0", "5", true, false, "10", "0"), "M 0 0 A 5 5 0 1 0 10 0");
    assert_eq!(arc_path("-1", "2.5", "0.5", false, true, "0", "3"), "M -1 2.5 A 0.5 0.5 0 0 1 0 3");
}

#[test]
fn debug_text_of_segments() {
    let l = Segment::line(p(0.0, 0.0), p(3.0, 4.0)).unwrap();
    assert_eq!(l.debug_text(), "LineSeg(0.0000, 0.0000 to 3.0000, 4.0000)");
    let a = Segment::arc_with_direction(p(0.0, 0.0), v(0.0, 1.0), p(2.0, 0.0)).unwrap();
    assert_eq!(a.debug_text(), "ArcSeg(0.0000, 0.0000 around 1.0000, 0.0000 to 2.0000, 0.0000)");
}

fn distance_of<C: Curve<F>>(curve: &C, point: P2<F>) -> f64 {
    curve.distance_to(point).0
}

fn reversed_end<C: FiniteCurve<F>>(curve: &C) -> P2<F> {
    curve.reverse().end()
}

#[test]
fn curves_through_their_traits() {
    let c = Circle { center: p(0.0, 0.0), radius: F(2.0) };
    assert!((distance_of(&c, p(0.0, 3.0)) - 1.0).abs() < EPS);
    let l = Line { start: p(0.0, 0.0), direction: v(0.0, 1.0) };
    assert!((distance_of(&l, p(-4.0, 9.0)) - 4.0).abs() < EPS);
    let s = Segment::line(p(0.0, 0.0), p(2.0, 0.0)).unwrap();
    assert!((distance_of(&s, p(1.0, 1.0)) - 1.0).abs() < EPS);
    assert!(close_p(reversed_end(&s), 0.0, 0.0));
    assert!(close(FiniteCurve::length(&s), 2.0));
    assert!(close_p(FiniteCurve::midpoint(&s), 1.0, 0.0));
    assert!(FiniteCurve::subsection(&s, F(0.5), F(1.5)).is_some());
    assert!(Curve::includes(&s, p(1.0, 0.0)));
}
