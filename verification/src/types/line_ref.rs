//! A line.

use vstd::prelude::*;
use vstd::string::*;
use crate::error::{agrees, Parsed, ParseError, ParseErrorView};
use crate::lex::{lemma_one_line_concat, one_line};
use crate::serialization::ToGencadString;
use crate::types::util::{ends_token, starts_token};
use crate::types::x_y_ref::{
    lemma_sp_x_y_round_trip, lemma_x_y_one_line, lemma_x_y_round_trip, sp_x_y_ref, spec_sp_x_y_ref,
    spec_x_y_ref, x_y_ok, x_y_ref, x_y_text, XYRef, XYRefView,
};

verus! {

/// Specifications for a line.
#[derive(Debug, Clone, PartialEq, Eq)]
pub struct LineRef {
    /// The start of the line.
    pub start: XYRef,
    /// The end of the line.
    pub end: XYRef,
}

/// The mathematical content of a [`LineRef`].
pub ghost struct LineRefView {
    pub start: XYRefView,
    pub end: XYRefView,
}

impl DeepView for LineRef {
    type V = LineRefView;

    open spec fn deep_view(&self) -> LineRefView {
        LineRefView { start: self.start.deep_view(), end: self.end.deep_view() }
    }
}

/// The line at the head of `s`: two points.
pub open spec fn spec_line_ref(s: Seq<char>) -> Parsed<LineRefView> {
    match spec_x_y_ref(s) {
        Err(e) => Err(e),
        Ok((s1, start)) => match spec_sp_x_y_ref(s1) {
            Err(e) => Err(e),
            Ok((s2, end)) => Ok((s2, LineRefView { start, end })),
        },
    }
}

/// The text of a line.
pub open spec fn line_text(v: LineRefView) -> Seq<char> {
    x_y_text(v.start) + " "@ + x_y_text(v.end)
}

impl LineRef {
    /// The line between the points `v`.
    pub fn new(v: (XYRef, XYRef)) -> (r: LineRef)
        ensures
            r.start == v.0,
            r.end == v.1,
    {
        let (start, end) = v;
        LineRef { start, end }
    }
}

/// Parses the line at the head of `s`.
pub fn line_ref(s: &str) -> (r: Result<(&str, LineRef), ParseError>)
    ensures
        agrees(r, spec_line_ref(s@)),
{
    let (s1, start) = x_y_ref(s)?;
    let (s2, end) = sp_x_y_ref(s1)?;
    Ok((s2, LineRef::new((start, end))))
}

impl ToGencadString for LineRef {
    open spec fn gencad(&self) -> Seq<char> {
        line_text(self.deep_view())
    }

    fn to_gencad_string(&self) -> (r: String) {
        let mut out = self.start.to_gencad_string();
        out.append(" ");
        let end = self.end.to_gencad_string();
        out.append(end.as_str());
        out
    }
}

/// Whether all coordinates of `v` are numbers.
pub open spec fn line_ok(v: LineRefView) -> bool {
    x_y_ok(v.start) && x_y_ok(v.end)
}

/// A line is read back from its text.
pub proof fn lemma_line_round_trip(v: LineRefView, t: Seq<char>)
    requires
        line_ok(v),
        ends_token(t),
    ensures
        starts_token(line_text(v)),
        spec_line_ref(line_text(v) + t) == Ok::<(Seq<char>, LineRefView), ParseErrorView>((t, v)),
{
    let tail = " "@ + (x_y_text(v.end) + t);
    lemma_sp_x_y_round_trip(v.end, t);
    lemma_x_y_round_trip(v.start, tail);
    assert(line_text(v) + t =~= x_y_text(v.start) + tail);
    assert(line_text(v)[0] == x_y_text(v.start)[0]);
}

/// The text of a line can stand on one line.
pub proof fn lemma_line_one_line(v: LineRefView)
    requires
        line_ok(v),
    ensures
        one_line(line_text(v)),
{
    reveal_strlit(" ");
    lemma_x_y_one_line(v.start);
    lemma_x_y_one_line(v.end);
    lemma_one_line_concat(x_y_text(v.start), " "@);
    lemma_one_line_concat(x_y_text(v.start) + " "@, x_y_text(v.end));
}

} // verus!
