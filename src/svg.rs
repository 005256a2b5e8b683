//! Text of a segment in the vector path syntax: a move to the start, then a
//! straight line (`L`) or an elliptical arc (`A`) to the end.
//!
//! Numbers arrive already written out, so the text here is exactly the
//! concatenation of the pieces with their separators.
use vstd::prelude::*;

verus! {

/// A single path flag: `1` when set, `0` otherwise.
pub open spec fn flag_text(set: bool) -> Seq<char> {
    if set {
        seq!['1']
    } else {
        seq!['0']
    }
}

/// `M x0 y0 L x1 y1`
pub open spec fn line_path_text(
    start_x: Seq<char>,
    start_y: Seq<char>,
    end_x: Seq<char>,
    end_y: Seq<char>,
) -> Seq<char> {
    seq!['M', ' '] + start_x + seq![' '] + start_y + seq![' ', 'L', ' '] + end_x + seq![' ']
        + end_y
}

/// `M x0 y0 A r r 0 F S x1 y1`, where `F` is the large-arc flag and `S` the
/// sweep flag; the radius is written twice because a circle is an ellipse
/// with equal half-axes, and the `0` is the ellipse's rotation.
pub open spec fn arc_path_text(
    start_x: Seq<char>,
    start_y: Seq<char>,
    radius: Seq<char>,
    large_arc: bool,
    sweep: bool,
    end_x: Seq<char>,
    end_y: Seq<char>,
) -> Seq<char> {
    seq!['M', ' '] + start_x + seq![' '] + start_y + seq![' ', 'A', ' '] + radius + seq![' ']
        + radius + seq![' ', '0', ' '] + flag_text(large_arc) + seq![' '] + flag_text(sweep)
        + seq![' '] + end_x + seq![' '] + end_y
}

fn push_flag(text: &mut String, set: bool)
    ensures
        final(text)@ == old(text)@ + flag_text(set),
{
    if set {
        proof {
            reveal_strlit("1");
        }
        text.append("1");
    } else {
        proof {
            reveal_strlit("0");
        }
        text.append("0");
    }
}

/// Path text of a straight segment from `(start_x, start_y)` to `(end_x, end_y)`.
pub fn line_path(start_x: &str, start_y: &str, end_x: &str, end_y: &str) -> (r: String)
    ensures
        r@ == line_path_text(start_x@, start_y@, end_x@, end_y@),
{
    proof {
        reveal_strlit("M ");
        reveal_strlit(" ");
        reveal_strlit(" L ");
    }
    let mut text = String::from_str("M ");
    text.append(start_x);
    text.append(" ");
    text.append(start_y);
    text.append(" L ");
    text.append(end_x);
    text.append(" ");
    text.append(end_y);
    assert(text@ =~= line_path_text(start_x@, start_y@, end_x@, end_y@));
    text
}

/// Path text of a circular arc of the given radius from `(start_x, start_y)`
/// to `(end_x, end_y)`; `large_arc` is set when the arc spans more than half
/// a turn, `sweep` when it turns counterclockwise.
pub fn arc_path(
    start_x: &str,
    start_y: &str,
    radius: &str,
    large_arc: bool,
    sweep: bool,
    end_x: &str,
    end_y: &str,
) -> (r: String)
    ensures
        r@ == arc_path_text(start_x@, start_y@, radius@, large_arc, sweep, end_x@, end_y@),
{
    proof {
        reveal_strlit("M ");
        reveal_strlit(" ");
        reveal_strlit(" A ");
        reveal_strlit(" 0 ");
    }
    let mut text = String::from_str("M ");
    text.append(start_x);
    text.append(" ");
    text.append(start_y);
    text.append(" A ");
    text.append(radius);
    text.append(" ");
    text.append(radius);
    text.append(" 0 ");
    push_flag(&mut text, large_arc);
    text.append(" ");
    push_flag(&mut text, sweep);
    text.append(" ");
    text.append(end_x);
    text.append(" ");
    text.append(end_y);
    assert(text@ =~= arc_path_text(start_x@, start_y@, radius@, large_arc, sweep, end_x@, end_y@));
    text
}

} // verus!
