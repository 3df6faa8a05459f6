//! An arc, circular or elliptical.

use vstd::prelude::*;
use vstd::string::*;
use crate::error::{agrees, Parsed, ParseError, ParseErrorView};
use crate::lex::{CharClass, lemma_one_line_concat, one_line, prefix_len};
use crate::serialization::ToGencadString;
use crate::types::number::{is_number, lemma_number_one_line, Number};
use crate::types::util::{ends_token, starts_token};
use crate::types::x_y_ref::{
    lemma_sp_number_round_trip, lemma_sp_x_y_round_trip, lemma_x_y_one_line, lemma_x_y_round_trip,
    sp_number, sp_x_y_ref, spec_sp_number, spec_sp_x_y_ref, spec_x_y_ref, x_y_ok, x_y_ref,
    x_y_text, XYRef, XYRefView,
};

verus! {

/// Specifications for a circular arc.
#[derive(Debug, Clone, PartialEq, Eq)]
pub struct CircularArcRef {
    /// The start coordinate of the arc.
    pub start: XYRef,
    /// The end coordinate of the arc.
    pub end: XYRef,
    /// The center of the circular arc.
    pub center: XYRef,
}

/// Specifications for an elliptical arc.
#[derive(Debug, Clone, PartialEq, Eq)]
pub struct EllipticalArcRef {
    /// The start coordinate of the arc.
    pub start: XYRef,
    /// The end coordinate of the arc.
    pub end: XYRef,
    /// The center of the elliptical arc.
    pub center: XYRef,
    /// Major radius of the ellipse.
    pub major_radius: Number,
    /// Minor radius of the ellipse.
    pub minor_radius: Number,
}

/// Specifications for an arc.
#[derive(Debug, Clone, PartialEq, Eq)]
pub enum ArcRef {
    Circular(CircularArcRef),
    Elliptical(EllipticalArcRef),
}

/// The mathematical content of a [`CircularArcRef`].
pub ghost struct CircularArcRefView {
    pub start: XYRefView,
    pub end: XYRefView,
    pub center: XYRefView,
}

/// The mathematical content of an [`EllipticalArcRef`].
pub ghost struct EllipticalArcRefView {
    pub start: XYRefView,
    pub end: XYRefView,
    pub center: XYRefView,
    pub major_radius: Seq<char>,
    pub minor_radius: Seq<char>,
}

/// The mathematical content of an [`ArcRef`].
pub ghost enum ArcRefView {
    Circular(CircularArcRefView),
    Elliptical(EllipticalArcRefView),
}

impl DeepView for CircularArcRef {
    type V = CircularArcRefView;

    open spec fn deep_view(&self) -> CircularArcRefView {
        CircularArcRefView {
            start: self.start.deep_view(),
            end: self.end.deep_view(),
            center: self.center.deep_view(),
        }
    }
}

impl DeepView for EllipticalArcRef {
    type V = EllipticalArcRefView;

    open spec fn deep_view(&self) -> EllipticalArcRefView {
        EllipticalArcRefView {
            start: self.start.deep_view(),
            end: self.end.deep_view(),
            center: self.center.deep_view(),
            major_radius: self.major_radius.deep_view(),
            minor_radius: self.minor_radius.deep_view(),
        }
    }
}

impl DeepView for ArcRef {
    type V = ArcRefView;

    open spec fn deep_view(&self) -> ArcRefView {
        match self {
            ArcRef::Circular(a) => ArcRefView::Circular(a.deep_view()),
            ArcRef::Elliptical(a) => ArcRefView::Elliptical(a.deep_view()),
        }
    }
}

/// The three points of an arc at the head of `s`: start, end and center.
pub open spec fn spec_circular_arc(s: Seq<char>) -> Parsed<CircularArcRefView> {
    match spec_x_y_ref(s) {
        Err(e) => Err(e),
        Ok((s1, start)) => match spec_sp_x_y_ref(s1) {
            Err(e) => Err(e),
            Ok((s2, end)) => match spec_sp_x_y_ref(s2) {
                Err(e) => Err(e),
                Ok((s3, center)) => Ok((s3, CircularArcRefView { start, end, center })),
            },
        },
    }
}

/// The two radii of an elliptical arc at the head of `s`, if both are there.
pub open spec fn spec_radii(s: Seq<char>) -> Option<(Seq<char>, Seq<char>, Seq<char>)> {
    match spec_sp_number(s) {
        Err(_) => None,
        Ok((s1, major)) => match spec_sp_number(s1) {
            Err(_) => None,
            Ok((s2, minor)) => Some((s2, major, minor)),
        },
    }
}

/// The arc at the head of `s`: three points, and the two radii that make it
/// elliptical where both follow.
pub open spec fn spec_arc_ref(s: Seq<char>) -> Parsed<ArcRefView> {
    match spec_circular_arc(s) {
        Err(e) => Err(e),
        Ok((s3, c)) => match spec_radii(s3) {
            Some((s5, major_radius, minor_radius)) => Ok(
                (
                    s5,
                    ArcRefView::Elliptical(
                        EllipticalArcRefView {
                            start: c.start,
                            end: c.end,
                            center: c.center,
                            major_radius,
                            minor_radius,
                        },
                    ),
                ),
            ),
            None => Ok((s3, ArcRefView::Circular(c))),
        },
    }
}

/// The text of an arc.
pub open spec fn arc_text(v: ArcRefView) -> Seq<char> {
    match v {
        ArcRefView::Circular(a) => x_y_text(a.start) + " "@ + x_y_text(a.end) + " "@ + x_y_text(
            a.center,
        ),
        ArcRefView::Elliptical(a) => x_y_text(a.start) + " "@ + x_y_text(a.end) + " "@ + x_y_text(
            a.center,
        ) + " "@ + a.major_radius + " "@ + a.minor_radius,
    }
}

impl ArcRef {
    /// The circular arc with the start, the end and the center `v`.
    pub fn new_circular(v: (XYRef, XYRef, XYRef)) -> (r: ArcRef)
        ensures
            r == ArcRef::Circular(CircularArcRef { start: v.0, end: v.1, center: v.2 }),
    {
        let (start, end, center) = v;
        ArcRef::Circular(CircularArcRef { start, end, center })
    }

    /// The elliptical arc with the start, the end, the center and the radii `v`.
    pub fn new_elliptical(v: (XYRef, XYRef, XYRef, Number, Number)) -> (r: ArcRef)
        ensures
            r == ArcRef::Elliptical(
                EllipticalArcRef {
                    start: v.0,
                    end: v.1,
                    center: v.2,
                    major_radius: v.3,
                    minor_radius: v.4,
                },
            ),
    {
        let (start, end, center, major_radius, minor_radius) = v;
        ArcRef::Elliptical(EllipticalArcRef { start, end, center, major_radius, minor_radius })
    }
}

/// Parses the two radii of an elliptical arc at the head of `s`.
fn radii(s: &str) -> (r: Option<(&str, Number, Number)>)
    ensures
        match r {
            Some((rest, major, minor)) => spec_radii(s@) == Some(
                (rest@, major.deep_view(), minor.deep_view()),
            ),
            None => spec_radii(s@) is None,
        },
{
    match sp_number(s) {
        Err(_) => None,
        Ok((s1, major)) => match sp_number(s1) {
            Err(_) => None,
            Ok((s2, minor)) => Some((s2, major, minor)),
        },
    }
}

/// Parses the arc at the head of `s`.
pub fn arc_ref(s: &str) -> (r: Result<(&str, ArcRef), ParseError>)
    ensures
        agrees(r, spec_arc_ref(s@)),
{
    let (s1, start) = x_y_ref(s)?;
    let (s2, end) = sp_x_y_ref(s1)?;
    let (s3, center) = sp_x_y_ref(s2)?;
    match radii(s3) {
        Some((s5, major, minor)) => Ok(
            (s5, ArcRef::new_elliptical((start, end, center, major, minor))),
        ),
        None => Ok((s3, ArcRef::new_circular((start, end, center)))),
    }
}

impl ToGencadString for ArcRef {
    open spec fn gencad(&self) -> Seq<char> {
        arc_text(self.deep_view())
    }

    fn to_gencad_string(&self) -> (r: String) {
        match self {
            ArcRef::Circular(arc) => {
                let mut out = arc.start.to_gencad_string();
                out.append(" ");
                let end = arc.end.to_gencad_string();
                out.append(end.as_str());
                out.append(" ");
                let center = arc.center.to_gencad_string();
                out.append(center.as_str());
                out
            },
            ArcRef::Elliptical(arc) => {
                let mut out = arc.start.to_gencad_string();
                out.append(" ");
                let end = arc.end.to_gencad_string();
                out.append(end.as_str());
                out.append(" ");
                let center = arc.center.to_gencad_string();
                out.append(center.as_str());
                out.append(" ");
                out.append(arc.major_radius.as_str());
                out.append(" ");
                out.append(arc.minor_radius.as_str());
                out
            },
        }
    }
}

/// Whether all coordinates and radii of `v` are numbers.
pub open spec fn arc_ok(v: ArcRefView) -> bool {
    match v {
        ArcRefView::Circular(a) => x_y_ok(a.start) && x_y_ok(a.end) && x_y_ok(a.center),
        ArcRefView::Elliptical(a) => x_y_ok(a.start) && x_y_ok(a.end) && x_y_ok(a.center)
            && is_number(a.major_radius) && is_number(a.minor_radius),
    }
}

/// The three points of an arc are read back from their text.
proof fn lemma_three_points(start: XYRefView, end: XYRefView, center: XYRefView, t: Seq<char>)
    requires
        x_y_ok(start),
        x_y_ok(end),
        x_y_ok(center),
        ends_token(t),
    ensures
        spec_circular_arc(x_y_text(start) + " "@ + x_y_text(end) + " "@ + x_y_text(center) + t)
            == Ok::<(Seq<char>, CircularArcRefView), ParseErrorView>(
            (t, CircularArcRefView { start, end, center }),
        ),
        starts_token(x_y_text(start)),
{
    let tail2 = " "@ + (x_y_text(center) + t);
    let tail1 = " "@ + (x_y_text(end) + tail2);
    lemma_sp_x_y_round_trip(center, t);
    lemma_sp_x_y_round_trip(end, tail2);
    lemma_x_y_round_trip(start, tail1);
    assert(x_y_text(start) + " "@ + x_y_text(end) + " "@ + x_y_text(center) + t =~= x_y_text(
        start,
    ) + tail1);
}

/// An arc is read back from its text, where nothing follows it: a circular
/// arc as a circular arc, an elliptical arc as an elliptical arc.
pub proof fn lemma_arc_round_trip(v: ArcRefView)
    requires
        arc_ok(v),
    ensures
        starts_token(arc_text(v)),
        spec_arc_ref(arc_text(v)) == Ok::<(Seq<char>, ArcRefView), ParseErrorView>(
            (Seq::empty(), v),
        ),
{
    let none = Seq::<char>::empty();
    match v {
        ArcRefView::Circular(a) => {
            lemma_three_points(a.start, a.end, a.center, none);
            assert(arc_text(v) + none =~= arc_text(v));
            assert(prefix_len(none, CharClass::Space) == 0);
            assert(spec_radii(none) is None);
            assert(arc_text(v)[0] == x_y_text(a.start)[0]);
        },
        ArcRefView::Elliptical(a) => {
            let tail2 = " "@ + (a.minor_radius + none);
            let tail1 = " "@ + (a.major_radius + tail2);
            lemma_sp_number_round_trip(a.minor_radius, none);
            lemma_sp_number_round_trip(a.major_radius, tail2);
            lemma_three_points(a.start, a.end, a.center, tail1);
            assert(arc_text(v) =~= x_y_text(a.start) + " "@ + x_y_text(a.end) + " "@ + x_y_text(
                a.center,
            ) + tail1);
            assert(arc_text(v)[0] == x_y_text(a.start)[0]);
        },
    }
}

/// The text of an arc can stand on one line.
pub proof fn lemma_arc_one_line(v: ArcRefView)
    requires
        arc_ok(v),
    ensures
        one_line(arc_text(v)),
{
    reveal_strlit(" ");
    match v {
        ArcRefView::Circular(a) => {
            lemma_x_y_one_line(a.start);
            lemma_x_y_one_line(a.end);
            lemma_x_y_one_line(a.center);
            lemma_one_line_concat(x_y_text(a.start), " "@);
            lemma_one_line_concat(x_y_text(a.start) + " "@, x_y_text(a.end));
            lemma_one_line_concat(x_y_text(a.start) + " "@ + x_y_text(a.end), " "@);
            lemma_one_line_concat(x_y_text(a.start) + " "@ + x_y_text(a.end) + " "@, x_y_text(a.center));
        },
        ArcRefView::Elliptical(a) => {
            lemma_x_y_one_line(a.start);
            lemma_x_y_one_line(a.end);
            lemma_x_y_one_line(a.center);
            lemma_number_one_line(a.major_radius);
            lemma_number_one_line(a.minor_radius);
            lemma_one_line_concat(x_y_text(a.start), " "@);
            lemma_one_line_concat(x_y_text(a.start) + " "@, x_y_text(a.end));
            lemma_one_line_concat(x_y_text(a.start) + " "@ + x_y_text(a.end), " "@);
            lemma_one_line_concat(x_y_text(a.start) + " "@ + x_y_text(a.end) + " "@, x_y_text(a.center));
            lemma_one_line_concat(x_y_text(a.start) + " "@ + x_y_text(a.end) + " "@ + x_y_text(a.center), " "@);
            lemma_one_line_concat(x_y_text(a.start) + " "@ + x_y_text(a.end) + " "@ + x_y_text(a.center) + " "@, a.major_radius);
            lemma_one_line_concat(x_y_text(a.start) + " "@ + x_y_text(a.end) + " "@ + x_y_text(a.center) + " "@ + a.major_radius, " "@);
            lemma_one_line_concat(x_y_text(a.start) + " "@ + x_y_text(a.end) + " "@ + x_y_text(a.center) + " "@ + a.major_radius + " "@, a.minor_radius);
        },
    }
}

} // verus!
