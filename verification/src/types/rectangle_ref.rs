//! A rectangle.

use vstd::prelude::*;
use vstd::string::*;
use crate::error::{agrees, Parsed, ParseError, ParseErrorView};
use crate::lex::{lemma_one_line_concat, one_line};
use crate::serialization::ToGencadString;
use crate::types::number::{is_number, lemma_number_one_line, Number};
use crate::types::util::{ends_token, lemma_one_space, spaces, spec_spaces, starts_token};
use crate::types::x_y_ref::{
    lemma_sp_number_round_trip, lemma_x_y_one_line, lemma_x_y_round_trip, sp_number,
    spec_sp_number, spec_x_y_ref, x_y_ok, x_y_ref, x_y_text, XYRef, XYRefView,
};

verus! {

/// Specifications for a rectangle.
#[derive(Debug, Clone, PartialEq, Eq)]
pub struct RectangleRef {
    /// The origin of the rectangle.
    pub origin: XYRef,
    /// The x-dimension of the rectangle.
    pub x: Number,
    /// The y-dimension of the rectangle.
    pub y: Number,
}

/// The mathematical content of a [`RectangleRef`].
pub ghost struct RectangleRefView {
    pub origin: XYRefView,
    pub x: Seq<char>,
    pub y: Seq<char>,
}

impl DeepView for RectangleRef {
    type V = RectangleRefView;

    open spec fn deep_view(&self) -> RectangleRefView {
        RectangleRefView {
            origin: self.origin.deep_view(),
            x: self.x.deep_view(),
            y: self.y.deep_view(),
        }
    }
}

/// The rectangle at the head of `s`: a point, a width and a height.
pub open spec fn spec_rectangle_ref(s: Seq<char>) -> Parsed<RectangleRefView> {
    match spec_x_y_ref(s) {
        Err(e) => Err(e),
        Ok((s1, origin)) => match spec_sp_number(s1) {
            Err(e) => Err(e),
            Ok((s2, x)) => match spec_sp_number(s2) {
                Err(e) => Err(e),
                Ok((s3, y)) => Ok((s3, RectangleRefView { origin, x, y })),
            },
        },
    }
}

/// The rectangle behind spaces at the head of `s`.
pub open spec fn spec_sp_rectangle_ref(s: Seq<char>) -> Parsed<RectangleRefView> {
    match spec_spaces(s) {
        Err(e) => Err(e),
        Ok((s1, _)) => spec_rectangle_ref(s1),
    }
}

/// The text of a rectangle.
pub open spec fn rectangle_text(v: RectangleRefView) -> Seq<char> {
    x_y_text(v.origin) + " "@ + v.x + " "@ + v.y
}

impl RectangleRef {
    /// The rectangle with the origin, the width and the height `v`.
    pub fn new(v: (XYRef, Number, Number)) -> (r: RectangleRef)
        ensures
            r.origin == v.0,
            r.x == v.1,
            r.y == v.2,
    {
        let (origin, x, y) = v;
        RectangleRef { origin, x, y }
    }
}

/// Parses the rectangle at the head of `s`.
pub fn rectangle_ref(s: &str) -> (r: Result<(&str, RectangleRef), ParseError>)
    ensures
        agrees(r, spec_rectangle_ref(s@)),
{
    let (s1, origin) = x_y_ref(s)?;
    let (s2, x) = sp_number(s1)?;
    let (s3, y) = sp_number(s2)?;
    Ok((s3, RectangleRef::new((origin, x, y))))
}

/// Parses the rectangle behind spaces at the head of `s`.
pub fn sp_rectangle_ref(s: &str) -> (r: Result<(&str, RectangleRef), ParseError>)
    ensures
        agrees(r, spec_sp_rectangle_ref(s@)),
{
    let (s1, _) = spaces(s)?;
    rectangle_ref(s1)
}

impl ToGencadString for RectangleRef {
    open spec fn gencad(&self) -> Seq<char> {
        rectangle_text(self.deep_view())
    }

    fn to_gencad_string(&self) -> (r: String) {
        let mut out = self.origin.to_gencad_string();
        out.append(" ");
        out.append(self.x.as_str());
        out.append(" ");
        out.append(self.y.as_str());
        out
    }
}

/// Whether the coordinates and the sides of `v` are numbers.
pub open spec fn rectangle_ok(v: RectangleRefView) -> bool {
    x_y_ok(v.origin) && is_number(v.x) && is_number(v.y)
}

/// A rectangle is read back from its text.
pub proof fn lemma_rectangle_round_trip(v: RectangleRefView, t: Seq<char>)
    requires
        rectangle_ok(v),
        ends_token(t),
    ensures
        starts_token(rectangle_text(v)),
        spec_rectangle_ref(rectangle_text(v) + t) == Ok::<
            (Seq<char>, RectangleRefView),
            ParseErrorView,
        >((t, v)),
{
    let tail2 = " "@ + (v.y + t);
    let tail1 = " "@ + (v.x + tail2);
    lemma_sp_number_round_trip(v.y, t);
    lemma_sp_number_round_trip(v.x, tail2);
    lemma_x_y_round_trip(v.origin, tail1);
    assert(rectangle_text(v) + t =~= x_y_text(v.origin) + tail1);
    assert(rectangle_text(v)[0] == x_y_text(v.origin)[0]);
}

/// A rectangle behind one space is read back, and the space makes a token end.
pub proof fn lemma_sp_rectangle_round_trip(v: RectangleRefView, t: Seq<char>)
    requires
        rectangle_ok(v),
        ends_token(t),
    ensures
        ends_token(" "@ + (rectangle_text(v) + t)),
        spec_sp_rectangle_ref(" "@ + (rectangle_text(v) + t)) == Ok::<
            (Seq<char>, RectangleRefView),
            ParseErrorView,
        >((t, v)),
{
    reveal_strlit(" ");
    lemma_rectangle_round_trip(v, t);
    assert((rectangle_text(v) + t)[0] == rectangle_text(v)[0]);
    lemma_one_space(rectangle_text(v) + t);
    assert((" "@ + (rectangle_text(v) + t))[0] == ' ');
}

/// The text of a rectangle can stand on one line.
pub proof fn lemma_rectangle_one_line(v: RectangleRefView)
    requires
        rectangle_ok(v),
    ensures
        one_line(rectangle_text(v)),
{
    reveal_strlit(" ");
    lemma_x_y_one_line(v.origin);
    lemma_number_one_line(v.x);
    lemma_number_one_line(v.y);
    lemma_one_line_concat(x_y_text(v.origin), " "@);
    lemma_one_line_concat(x_y_text(v.origin) + " "@, v.x);
    lemma_one_line_concat(x_y_text(v.origin) + " "@ + v.x, " "@);
    lemma_one_line_concat(x_y_text(v.origin) + " "@ + v.x + " "@, v.y);
}

} // verus!
