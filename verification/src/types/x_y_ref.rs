//! A pair of coordinates.

use vstd::prelude::*;
use vstd::string::*;
use crate::error::{agrees, Parsed, ParseError, ParseErrorView};
use crate::lex::{lemma_one_line_concat, one_line};
use crate::serialization::ToGencadString;
use crate::types::number::{
    is_number, lemma_number_one_line, lemma_number_round_trip, number, Number, spec_number,
};
use crate::types::util::{ends_token, lemma_one_space, spaces, spec_spaces, starts_token};

verus! {

/// A pair of numbers defining the x and y coordinates of a point on or off board.
#[derive(Debug, Clone, PartialEq, Eq)]
pub struct XYRef {
    /// The x-coordinate.
    pub x: Number,
    /// The y-coordinate.
    pub y: Number,
}

/// The mathematical content of an [`XYRef`].
pub ghost struct XYRefView {
    pub x: Seq<char>,
    pub y: Seq<char>,
}

impl DeepView for XYRef {
    type V = XYRefView;

    open spec fn deep_view(&self) -> XYRefView {
        XYRefView { x: self.x.deep_view(), y: self.y.deep_view() }
    }
}

/// The number behind spaces at the head of `s`.
pub open spec fn spec_sp_number(s: Seq<char>) -> Parsed<Seq<char>> {
    match spec_spaces(s) {
        Err(e) => Err(e),
        Ok((s1, _)) => spec_number(s1),
    }
}

/// The pair of coordinates at the head of `s`.
pub open spec fn spec_x_y_ref(s: Seq<char>) -> Parsed<XYRefView> {
    match spec_number(s) {
        Err(e) => Err(e),
        Ok((s1, x)) => match spec_sp_number(s1) {
            Err(e) => Err(e),
            Ok((s2, y)) => Ok((s2, XYRefView { x, y })),
        },
    }
}

/// The pair of coordinates behind spaces at the head of `s`.
pub open spec fn spec_sp_x_y_ref(s: Seq<char>) -> Parsed<XYRefView> {
    match spec_spaces(s) {
        Err(e) => Err(e),
        Ok((s1, _)) => spec_x_y_ref(s1),
    }
}

/// The text of a pair of coordinates.
pub open spec fn x_y_text(v: XYRefView) -> Seq<char> {
    v.x + " "@ + v.y
}

impl XYRef {
    /// The point with the coordinates `p`.
    pub fn new(p: (Number, Number)) -> (r: XYRef)
        ensures
            r.x == p.0,
            r.y == p.1,
    {
        let (x, y) = p;
        XYRef { x, y }
    }
}

/// Parses the number behind spaces at the head of `s`.
pub fn sp_number(s: &str) -> (r: Result<(&str, Number), ParseError>)
    ensures
        agrees(r, spec_sp_number(s@)),
{
    let (s1, _) = spaces(s)?;
    number(s1)
}

/// Parses the pair of coordinates at the head of `s`.
pub fn x_y_ref(s: &str) -> (r: Result<(&str, XYRef), ParseError>)
    ensures
        agrees(r, spec_x_y_ref(s@)),
{
    let (s1, x) = number(s)?;
    let (s2, y) = sp_number(s1)?;
    Ok((s2, XYRef::new((x, y))))
}

/// Parses the pair of coordinates behind spaces at the head of `s`.
pub fn sp_x_y_ref(s: &str) -> (r: Result<(&str, XYRef), ParseError>)
    ensures
        agrees(r, spec_sp_x_y_ref(s@)),
{
    let (s1, _) = spaces(s)?;
    x_y_ref(s1)
}

impl ToGencadString for XYRef {
    open spec fn gencad(&self) -> Seq<char> {
        x_y_text(self.deep_view())
    }

    fn to_gencad_string(&self) -> (r: String) {
        let mut out = self.x.to_gencad_string();
        out.append(" ");
        out.append(self.y.as_str());
        out
    }
}

/// Whether both coordinates of `v` are numbers.
pub open spec fn x_y_ok(v: XYRefView) -> bool {
    is_number(v.x) && is_number(v.y)
}

/// A number behind one space is read back, and the space makes a token end.
pub proof fn lemma_sp_number_round_trip(text: Seq<char>, t: Seq<char>)
    requires
        is_number(text),
        ends_token(t),
    ensures
        ends_token(" "@ + (text + t)),
        spec_sp_number(" "@ + (text + t)) == Ok::<(Seq<char>, Seq<char>), ParseErrorView>(
            (t, text),
        ),
{
    reveal_strlit(" ");
    lemma_number_round_trip(text, t);
    assert((text + t)[0] == text[0]);
    lemma_one_space(text + t);
    assert((" "@ + (text + t))[0] == ' ');
}

/// A pair of coordinates is read back from its text.
pub proof fn lemma_x_y_round_trip(v: XYRefView, t: Seq<char>)
    requires
        x_y_ok(v),
        ends_token(t),
    ensures
        starts_token(x_y_text(v)),
        spec_x_y_ref(x_y_text(v) + t) == Ok::<(Seq<char>, XYRefView), ParseErrorView>((t, v)),
{
    let tail = " "@ + (v.y + t);
    lemma_sp_number_round_trip(v.y, t);
    lemma_number_round_trip(v.x, tail);
    assert(x_y_text(v) + t =~= v.x + tail);
    assert(x_y_text(v)[0] == v.x[0]);
}

/// A pair of coordinates behind one space is read back, and the space makes
/// a token end.
pub proof fn lemma_sp_x_y_round_trip(v: XYRefView, t: Seq<char>)
    requires
        x_y_ok(v),
        ends_token(t),
    ensures
        ends_token(" "@ + (x_y_text(v) + t)),
        spec_sp_x_y_ref(" "@ + (x_y_text(v) + t)) == Ok::<(Seq<char>, XYRefView), ParseErrorView>(
            (t, v),
        ),
{
    reveal_strlit(" ");
    lemma_x_y_round_trip(v, t);
    assert((x_y_text(v) + t)[0] == x_y_text(v)[0]);
    lemma_one_space(x_y_text(v) + t);
    assert((" "@ + (x_y_text(v) + t))[0] == ' ');
}

/// The text of a pair of coordinates can stand on one line.
pub proof fn lemma_x_y_one_line(v: XYRefView)
    requires
        x_y_ok(v),
    ensures
        one_line(x_y_text(v)),
{
    reveal_strlit(" ");
    lemma_number_one_line(v.x);
    lemma_number_one_line(v.y);
    lemma_one_line_concat(v.x, " "@);
    lemma_one_line_concat(v.x + " "@, v.y);
}

} // verus!
