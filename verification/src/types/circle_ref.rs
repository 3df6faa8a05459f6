//! A circle.

use vstd::prelude::*;
use vstd::string::*;
use crate::error::{agrees, Parsed, ParseError, ParseErrorView};
use crate::lex::{lemma_one_line_concat, one_line};
use crate::serialization::ToGencadString;
use crate::types::number::{is_number, lemma_number_one_line, Number};
use crate::types::util::{ends_token, starts_token};
use crate::types::x_y_ref::{
    lemma_sp_number_round_trip, lemma_x_y_one_line, lemma_x_y_round_trip, sp_number,
    spec_sp_number, spec_x_y_ref, x_y_ok, x_y_ref, x_y_text, XYRef, XYRefView,
};

verus! {

/// Specifications for a circle.
#[derive(Debug, Clone, PartialEq, Eq)]
pub struct CircleRef {
    /// The center of the circle.
    pub center: XYRef,
    /// The radius of the circle.
    pub radius: Number,
}

/// The mathematical content of a [`CircleRef`].
pub ghost struct CircleRefView {
    pub center: XYRefView,
    pub radius: Seq<char>,
}

impl DeepView for CircleRef {
    type V = CircleRefView;

    open spec fn deep_view(&self) -> CircleRefView {
        CircleRefView { center: self.center.deep_view(), radius: self.radius.deep_view() }
    }
}

/// The circle at the head of `s`: a point and a radius.
pub open spec fn spec_circle_ref(s: Seq<char>) -> Parsed<CircleRefView> {
    match spec_x_y_ref(s) {
        Err(e) => Err(e),
        Ok((s1, center)) => match spec_sp_number(s1) {
            Err(e) => Err(e),
            Ok((s2, radius)) => Ok((s2, CircleRefView { center, radius })),
        },
    }
}

/// The text of a circle.
pub open spec fn circle_text(v: CircleRefView) -> Seq<char> {
    x_y_text(v.center) + " "@ + v.radius
}

impl CircleRef {
    /// The circle with the center and the radius `v`.
    pub fn new(v: (XYRef, Number)) -> (r: CircleRef)
        ensures
            r.center == v.0,
            r.radius == v.1,
    {
        let (center, radius) = v;
        CircleRef { center, radius }
    }
}

/// Parses the circle at the head of `s`.
pub fn circle_ref(s: &str) -> (r: Result<(&str, CircleRef), ParseError>)
    ensures
        agrees(r, spec_circle_ref(s@)),
{
    let (s1, center) = x_y_ref(s)?;
    let (s2, radius) = sp_number(s1)?;
    Ok((s2, CircleRef::new((center, radius))))
}

impl ToGencadString for CircleRef {
    open spec fn gencad(&self) -> Seq<char> {
        circle_text(self.deep_view())
    }

    fn to_gencad_string(&self) -> (r: String) {
        let mut out = self.center.to_gencad_string();
        out.append(" ");
        out.append(self.radius.as_str());
        out
    }
}

/// Whether the coordinates and the radius of `v` are numbers.
pub open spec fn circle_ok(v: CircleRefView) -> bool {
    x_y_ok(v.center) && is_number(v.radius)
}

/// A circle is read back from its text.
pub proof fn lemma_circle_round_trip(v: CircleRefView, t: Seq<char>)
    requires
        circle_ok(v),
        ends_token(t),
    ensures
        starts_token(circle_text(v)),
        spec_circle_ref(circle_text(v) + t) == Ok::<(Seq<char>, CircleRefView), ParseErrorView>(
            (t, v),
        ),
{
    let tail = " "@ + (v.radius + t);
    lemma_sp_number_round_trip(v.radius, t);
    lemma_x_y_round_trip(v.center, tail);
    assert(circle_text(v) + t =~= x_y_text(v.center) + tail);
    assert(circle_text(v)[0] == x_y_text(v.center)[0]);
}

/// The text of a circle can stand on one line.
pub proof fn lemma_circle_one_line(v: CircleRefView)
    requires
        circle_ok(v),
    ensures
        one_line(circle_text(v)),
{
    reveal_strlit(" ");
    lemma_x_y_one_line(v.center);
    lemma_number_one_line(v.radius);
    lemma_one_line_concat(x_y_text(v.center), " "@);
    lemma_one_line_concat(x_y_text(v.center) + " "@, v.radius);
}

} // verus!
