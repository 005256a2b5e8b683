//! The number type that the curves are measured in.
//!
//! The geometry is written once for any type that offers these operations.
//! Each operation is named by a spec function of the same name, and returns
//! exactly what that function gives on its arguments; nothing else is assumed
//! of the arithmetic, so what is proved about the curves holds whatever it
//! rounds to.
use vstd::prelude::*;

verus! {

pub trait Scalar: Sized + Copy {
    spec fn spec_from_ratio(numerator: i64, denominator: i64) -> Self;

    /// The value `numerator / denominator`.
    fn from_ratio(numerator: i64, denominator: i64) -> (r: Self)
        ensures
            r == Self::spec_from_ratio(numerator, denominator),
    ;

    spec fn spec_half_turn() -> Self;

    /// Half a turn, in radians.
    fn half_turn() -> (r: Self)
        ensures
            r == Self::spec_half_turn(),
    ;

    spec fn spec_plus(self, other: Self) -> Self;

    fn plus(self, other: Self) -> (r: Self)
        ensures
            r == self.spec_plus(other),
    ;

    spec fn spec_minus(self, other: Self) -> Self;

    fn minus(self, other: Self) -> (r: Self)
        ensures
            r == self.spec_minus(other),
    ;

    spec fn spec_times(self, other: Self) -> Self;

    fn times(self, other: Self) -> (r: Self)
        ensures
            r == self.spec_times(other),
    ;

    spec fn spec_divided_by(self, other: Self) -> Self;

    fn divided_by(self, other: Self) -> (r: Self)
        ensures
            r == self.spec_divided_by(other),
    ;

    spec fn spec_negated(self) -> Self;

    fn negated(self) -> (r: Self)
        ensures
            r == self.spec_negated(),
    ;

    spec fn spec_absolute(self) -> Self;

    fn absolute(self) -> (r: Self)
        ensures
            r == self.spec_absolute(),
    ;

    spec fn spec_square_root(self) -> Self;

    fn square_root(self) -> (r: Self)
        ensures
            r == self.spec_square_root(),
    ;

    spec fn spec_atan2(self, x: Self) -> Self;

    /// The angle of the vector `(x, y)` from the positive x axis, in `(-π, π]`,
    /// called on `y`.
    fn atan2(self, x: Self) -> (r: Self)
        ensures
            r == self.spec_atan2(x),
    ;

    spec fn spec_arc_cosine(self) -> Self;

    fn arc_cosine(self) -> (r: Self)
        ensures
            r == self.spec_arc_cosine(),
    ;

    spec fn spec_sine(self) -> Self;

    fn sine(self) -> (r: Self)
        ensures
            r == self.spec_sine(),
    ;

    spec fn spec_cosine(self) -> Self;

    fn cosine(self) -> (r: Self)
        ensures
            r == self.spec_cosine(),
    ;

    spec fn spec_less_than(self, other: Self) -> bool;

    fn less_than(self, other: Self) -> (r: bool)
        ensures
            r == self.spec_less_than(other),
    ;

    spec fn spec_at_most(self, other: Self) -> bool;

    fn at_most(self, other: Self) -> (r: bool)
        ensures
            r == self.spec_at_most(other),
    ;

    spec fn spec_is_nan(self) -> bool;

    fn is_nan(self) -> (r: bool)
        ensures
            r == self.spec_is_nan(),
    ;

    spec fn spec_text(self) -> String;

    /// The value written out in decimal, in its shortest exact form.
    fn to_text(self) -> (r: String)
        ensures
            r == self.spec_text(),
    ;

    spec fn spec_fixed_text(self, decimals: usize) -> String;

    /// The value written out in decimal, rounded to `decimals` places.
    fn to_fixed_text(self, decimals: usize) -> (r: String)
        ensures
            r == self.spec_fixed_text(decimals),
    ;
}

} // verus!
