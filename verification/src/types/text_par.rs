//! The parameters of a text on the board.

use vstd::prelude::*;
use vstd::string::*;
use crate::error::{agrees, Parsed, ParseError, ParseErrorView};
use crate::lex::{lemma_one_line_concat, one_line};
use crate::serialization::ToGencadString;
use crate::types::attrib_ref::{lemma_sp_string_round_trip, sp_string, spec_sp_string};
use crate::types::layer::{
    layer, Layer, layer_text, lemma_layer_round_trip, lemma_layer_text_one_line, spec_layer,
};
use crate::types::mirror::{
    lemma_mirror_round_trip, lemma_mirror_text_one_line, mirror, Mirror, mirror_text, spec_mirror,
};
use crate::types::number::{
    is_number, lemma_number_one_line, lemma_number_round_trip, number, Number, spec_number,
};
use crate::types::rectangle_ref::{
    lemma_rectangle_one_line, lemma_sp_rectangle_round_trip, rectangle_ok, rectangle_text,
    RectangleRef, RectangleRefView, sp_rectangle_ref, spec_sp_rectangle_ref,
};
use crate::types::string::{is_writable, lemma_string_one_line, string_text};
use crate::types::util::{ends_token, lemma_one_space, spaces, spec_spaces, starts_token};
use crate::types::x_y_ref::{
    lemma_sp_number_round_trip, lemma_x_y_round_trip, sp_number, spec_sp_number, spec_x_y_ref,
    x_y_ok, x_y_text, XYRefView,
};

verus! {

/// Specifications for a text object.
#[derive(Debug, Clone, PartialEq, Eq)]
pub struct TextPar {
    /// The text size.
    pub text_size: Number,
    /// The rotation of the text in degrees.
    pub rotation: Number,
    /// The mirror status of the text.
    pub mirror: Mirror,
    /// The layer this text belongs to.
    pub layer: Layer,
    /// The text itself.
    pub text: String,
    /// The rectangular area the text must fit within.
    pub area: RectangleRef,
}

/// The mathematical content of a [`TextPar`].
pub ghost struct TextParView {
    pub text_size: Seq<char>,
    pub rotation: Seq<char>,
    pub mirror: Mirror,
    pub layer: Layer,
    pub text: Seq<char>,
    pub area: RectangleRefView,
}

impl DeepView for TextPar {
    type V = TextParView;

    open spec fn deep_view(&self) -> TextParView {
        TextParView {
            text_size: self.text_size.deep_view(),
            rotation: self.rotation.deep_view(),
            mirror: self.mirror,
            layer: self.layer,
            text: self.text@,
            area: self.area.deep_view(),
        }
    }
}

/// The mathematical content of a text placed on the board or in a component:
/// its origin and its parameters.
pub ghost struct TextView {
    pub origin: XYRefView,
    pub text: TextParView,
}

/// The text that the parameter of a `TEXT` line describes.
pub open spec fn spec_text_line(params: Seq<char>) -> Result<TextView, ParseErrorView> {
    match spec_x_y_ref(params) {
        Err(e) => Err(e),
        Ok((s1, origin)) => match spec_sp_text_par(s1) {
            Err(e) => Err(e),
            Ok((_, text)) => Ok(TextView { origin, text }),
        },
    }
}

/// The line of a text.
pub open spec fn text_line(v: TextView) -> Seq<char> {
    "TEXT "@ + x_y_text(v.origin) + " "@ + text_par_text(v.text)
}

/// The mirror state behind spaces at the head of `s`.
pub open spec fn spec_sp_mirror(s: Seq<char>) -> Parsed<Mirror> {
    match spec_spaces(s) {
        Err(e) => Err(e),
        Ok((s1, _)) => spec_mirror(s1),
    }
}

/// The layer behind spaces at the head of `s`.
pub open spec fn spec_sp_layer(s: Seq<char>) -> Parsed<Layer> {
    match spec_spaces(s) {
        Err(e) => Err(e),
        Ok((s1, _)) => spec_layer(s1),
    }
}

/// The text parameters at the head of `s`: size, rotation, mirror state,
/// layer, text and area.
pub open spec fn spec_text_par(s: Seq<char>) -> Parsed<TextParView> {
    match spec_number(s) {
        Err(e) => Err(e),
        Ok((s1, text_size)) => match spec_sp_number(s1) {
            Err(e) => Err(e),
            Ok((s2, rotation)) => match spec_sp_mirror(s2) {
                Err(e) => Err(e),
                Ok((s3, mirror)) => match spec_sp_layer(s3) {
                    Err(e) => Err(e),
                    Ok((s4, layer)) => match spec_sp_string(s4) {
                        Err(e) => Err(e),
                        Ok((s5, text)) => match spec_sp_rectangle_ref(s5) {
                            Err(e) => Err(e),
                            Ok((s6, area)) => Ok(
                                (
                                    s6,
                                    TextParView { text_size, rotation, mirror, layer, text, area },
                                ),
                            ),
                        },
                    },
                },
            },
        },
    }
}

/// The text parameters behind spaces at the head of `s`.
pub open spec fn spec_sp_text_par(s: Seq<char>) -> Parsed<TextParView> {
    match spec_spaces(s) {
        Err(e) => Err(e),
        Ok((s1, _)) => spec_text_par(s1),
    }
}

/// The text of text parameters.
pub open spec fn text_par_text(v: TextParView) -> Seq<char> {
    v.text_size + " "@ + v.rotation + " "@ + mirror_text(v.mirror) + " "@ + layer_text(v.layer)
        + " "@ + string_text(v.text) + " "@ + rectangle_text(v.area)
}

impl TextPar {
    /// The text parameters with the fields `v`.
    pub fn new(v: (Number, Number, Mirror, Layer, String, RectangleRef)) -> (r: TextPar)
        ensures
            r == (TextPar {
                text_size: v.0,
                rotation: v.1,
                mirror: v.2,
                layer: v.3,
                text: v.4,
                area: v.5,
            }),
    {
        let (text_size, rotation, mirror, layer, text, area) = v;
        TextPar { text_size, rotation, mirror, layer, text, area }
    }
}

/// Parses the mirror state behind spaces at the head of `s`.
pub fn sp_mirror(s: &str) -> (r: Result<(&str, Mirror), ParseError>)
    ensures
        agrees(r, spec_sp_mirror(s@)),
{
    let (s1, _) = spaces(s)?;
    mirror(s1)
}

/// Parses the layer behind spaces at the head of `s`.
pub fn sp_layer(s: &str) -> (r: Result<(&str, Layer), ParseError>)
    ensures
        agrees(r, spec_sp_layer(s@)),
{
    let (s1, _) = spaces(s)?;
    layer(s1)
}

/// Parses the text parameters at the head of `s`.
pub fn text_par(s: &str) -> (r: Result<(&str, TextPar), ParseError>)
    ensures
        agrees(r, spec_text_par(s@)),
{
    let (s1, text_size) = number(s)?;
    let (s2, rotation) = sp_number(s1)?;
    let (s3, mirror) = sp_mirror(s2)?;
    let (s4, layer) = sp_layer(s3)?;
    let (s5, text) = sp_string(s4)?;
    let (s6, area) = sp_rectangle_ref(s5)?;
    Ok((s6, TextPar::new((text_size, rotation, mirror, layer, text, area))))
}

/// Parses the text parameters behind spaces at the head of `s`.
pub fn sp_text_par(s: &str) -> (r: Result<(&str, TextPar), ParseError>)
    ensures
        agrees(r, spec_sp_text_par(s@)),
{
    let (s1, _) = spaces(s)?;
    text_par(s1)
}

impl ToGencadString for TextPar {
    open spec fn gencad(&self) -> Seq<char> {
        text_par_text(self.deep_view())
    }

    fn to_gencad_string(&self) -> (r: String) {
        let mut out = self.text_size.to_gencad_string();
        out.append(" ");
        out.append(self.rotation.as_str());
        out.append(" ");
        let mirror = self.mirror.to_gencad_string();
        out.append(mirror.as_str());
        out.append(" ");
        let layer = self.layer.to_gencad_string();
        out.append(layer.as_str());
        out.append(" ");
        let text = self.text.to_gencad_string();
        out.append(text.as_str());
        out.append(" ");
        let area = self.area.to_gencad_string();
        out.append(area.as_str());
        out
    }
}

/// Whether the numbers of `v` are numbers, and its text can be written and
/// read back.
pub open spec fn text_par_ok(v: TextParView) -> bool {
    is_number(v.text_size) && is_number(v.rotation) && is_writable(v.text) && rectangle_ok(v.area)
}

/// Whether the parts of the text `v` can be written and read back.
pub open spec fn text_ok(v: TextView) -> bool {
    x_y_ok(v.origin) && text_par_ok(v.text)
}

/// A mirror state behind one space is read back, and the space makes a token end.
pub proof fn lemma_sp_mirror_round_trip(v: Mirror, t: Seq<char>)
    requires
        ends_token(t),
    ensures
        ends_token(" "@ + (mirror_text(v) + t)),
        spec_sp_mirror(" "@ + (mirror_text(v) + t)) == Ok::<(Seq<char>, Mirror), ParseErrorView>(
            (t, v),
        ),
{
    reveal_strlit(" ");
    lemma_mirror_round_trip(v, t);
    assert((mirror_text(v) + t)[0] == mirror_text(v)[0]);
    lemma_one_space(mirror_text(v) + t);
    assert((" "@ + (mirror_text(v) + t))[0] == ' ');
}

/// A layer behind one space is read back, and the space makes a token end.
pub proof fn lemma_sp_layer_round_trip(v: Layer, t: Seq<char>)
    requires
        ends_token(t),
    ensures
        ends_token(" "@ + (layer_text(v) + t)),
        spec_sp_layer(" "@ + (layer_text(v) + t)) == Ok::<(Seq<char>, Layer), ParseErrorView>(
            (t, v),
        ),
{
    reveal_strlit(" ");
    lemma_layer_round_trip(v, t);
    assert((layer_text(v) + t)[0] == layer_text(v)[0]);
    lemma_one_space(layer_text(v) + t);
    assert((" "@ + (layer_text(v) + t))[0] == ' ');
}

/// Text parameters are read back from their text.
#[verifier::rlimit(80)]
#[verifier::spinoff_prover]
pub proof fn lemma_text_par_round_trip(v: TextParView, t: Seq<char>)
    requires
        text_par_ok(v),
        ends_token(t),
    ensures
        starts_token(text_par_text(v)),
        spec_text_par(text_par_text(v) + t) == Ok::<(Seq<char>, TextParView), ParseErrorView>(
            (t, v),
        ),
{
    let tail5 = " "@ + (rectangle_text(v.area) + t);
    let tail4 = " "@ + (string_text(v.text) + tail5);
    let tail3 = " "@ + (layer_text(v.layer) + tail4);
    let tail2 = " "@ + (mirror_text(v.mirror) + tail3);
    let tail1 = " "@ + (v.rotation + tail2);
    lemma_sp_rectangle_round_trip(v.area, t);
    lemma_sp_string_round_trip(v.text, tail5);
    lemma_sp_layer_round_trip(v.layer, tail4);
    lemma_sp_mirror_round_trip(v.mirror, tail3);
    lemma_sp_number_round_trip(v.rotation, tail2);
    lemma_number_round_trip(v.text_size, tail1);
    assert(text_par_text(v) + t =~= v.text_size + tail1);
    assert(text_par_text(v)[0] == v.text_size[0]);
}

/// A text is read back from the parameter of its line.
pub proof fn lemma_text_line_round_trip(v: TextView)
    requires
        text_ok(v),
    ensures
        spec_text_line(x_y_text(v.origin) + " "@ + text_par_text(v.text)) == Ok::<
            TextView,
            ParseErrorView,
        >(v),
{
    reveal_strlit(" ");
    let none = Seq::<char>::empty();
    let tail = " "@ + (text_par_text(v.text) + none);
    lemma_text_par_round_trip(v.text, none);
    assert((text_par_text(v.text) + none)[0] == text_par_text(v.text)[0]);
    lemma_one_space(text_par_text(v.text) + none);
    assert(tail[0] == ' ');
    lemma_x_y_round_trip(v.origin, tail);
    assert(x_y_text(v.origin) + " "@ + text_par_text(v.text) =~= x_y_text(v.origin) + tail);
}

/// The text of text parameters can stand on one line.
pub proof fn lemma_text_par_one_line(v: TextParView)
    requires
        text_par_ok(v),
    ensures
        one_line(text_par_text(v)),
{
    reveal_strlit(" ");
    lemma_number_one_line(v.text_size);
    lemma_number_one_line(v.rotation);
    lemma_mirror_text_one_line(v.mirror);
    lemma_layer_text_one_line(v.layer);
    lemma_string_one_line(v.text);
    lemma_rectangle_one_line(v.area);
    lemma_one_line_concat(v.text_size, " "@);
    lemma_one_line_concat(v.text_size + " "@, v.rotation);
    lemma_one_line_concat(v.text_size + " "@ + v.rotation, " "@);
    lemma_one_line_concat(v.text_size + " "@ + v.rotation + " "@, mirror_text(v.mirror));
    lemma_one_line_concat(v.text_size + " "@ + v.rotation + " "@ + mirror_text(v.mirror), " "@);
    lemma_one_line_concat(v.text_size + " "@ + v.rotation + " "@ + mirror_text(v.mirror) + " "@, layer_text(v.layer));
    lemma_one_line_concat(v.text_size + " "@ + v.rotation + " "@ + mirror_text(v.mirror) + " "@ + layer_text(v.layer), " "@);
    lemma_one_line_concat(v.text_size + " "@ + v.rotation + " "@ + mirror_text(v.mirror) + " "@ + layer_text(v.layer) + " "@, string_text(v.text));
    lemma_one_line_concat(v.text_size + " "@ + v.rotation + " "@ + mirror_text(v.mirror) + " "@ + layer_text(v.layer) + " "@ + string_text(v.text), " "@);
    lemma_one_line_concat(v.text_size + " "@ + v.rotation + " "@ + mirror_text(v.mirror) + " "@ + layer_text(v.layer) + " "@ + string_text(v.text) + " "@, rectangle_text(v.area));
}

} // verus!
