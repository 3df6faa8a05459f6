//! The layers of a board.

use vstd::prelude::*;
use vstd::string::*;
use crate::error::{agrees, Parsed, ParseError, ParseErrorView, spec_expected, Token};
use crate::lex::{
    CharClass, lemma_one_line_concat, lemma_prefix_len, one_line, prefix_len, str_eq, take_while,
};
use crate::serialization::ToGencadString;
use crate::types::p_integer::{
    decimal_digits, lemma_decimal_one_line, lemma_p_integer_round_trip, parse_u16, push_decimal,
    spec_u16,
};
use crate::types::util::{
    eat, ends_token, lemma_tag_concat, lemma_tag_differs, spec_tag, starts_token,
};

verus! {

/// Layer information.
#[derive(Debug, Clone, Copy, PartialEq, Eq, Structural)]
pub enum Layer {
    /// The top of the board.
    Top,
    /// The bottom of the board.
    Bottom,
    /// The soldermask on the top side of the board.
    SoldermaskTop,
    /// The soldermask on the bottom side of the board.
    SoldermaskBottom,
    /// The silkscreen on the top side of the board.
    SilkscreenTop,
    /// The silkscreen on the bottom side of the board.
    SilkscreenBottom,
    /// The solder paste on the top side of the board.
    SolderpasteTop,
    /// The solder paste on the bottom side of the board.
    SolderpasteBottom,
    /// Specific power layer/plane.
    PowerX(u16),
    /// Specific ground layer/plane.
    GroundX(u16),
    /// All inner layers combined.
    Inner,
    /// A specific inner layer.
    InnerX(u16),
    /// All copper layers of the board.
    All,
    /// Specific layers that cannot be defined by the other parameters.
    LayerX(u16),
    /// Sets of layers.
    LayersetX(u16),
}

impl DeepView for Layer {
    type V = Layer;

    open spec fn deep_view(&self) -> Layer {
        *self
    }
}

/// Whether `k` names a family of numbered layers.
pub open spec fn is_numbered_layer(k: Seq<char>) -> bool {
    k == "POWER"@ || k == "GROUND"@ || k == "INNER"@ || k == "LAYER"@ || k == "LAYERSET"@
}

/// The layer of the family `k` with the number that `v` spells, if `v` spells
/// a number of 16 bits.
pub open spec fn spec_layer_from_pair(k: Seq<char>, v: Seq<char>) -> Option<Layer> {
    match spec_u16(v) {
        None => None,
        Some(n) => Some(
            if k == "POWER"@ {
                Layer::PowerX(n)
            } else if k == "GROUND"@ {
                Layer::GroundX(n)
            } else if k == "INNER"@ {
                Layer::InnerX(n)
            } else if k == "LAYER"@ {
                Layer::LayerX(n)
            } else {
                Layer::LayersetX(n)
            },
        ),
    }
}

/// The digits that follow the family name `k` at the head of `s`, at least
/// one, and what is left behind them.
pub open spec fn spec_numbered(k: Seq<char>, s: Seq<char>) -> Option<(Seq<char>, Seq<char>)> {
    match spec_tag(k, s) {
        None => None,
        Some(s1) => {
            let n = prefix_len(s1, CharClass::Digit);
            if n > 0 {
                Some((s1.skip(n as int), s1.take(n as int)))
            } else {
                None
            }
        },
    }
}

/// The first family, in the order POWER, GROUND, INNER, LAYER, LAYERSET,
/// whose name and digits stand at the head of `s`, with what is left and the digits.
pub open spec fn spec_layer_family(s: Seq<char>) -> Option<(Seq<char>, Seq<char>, Seq<char>)> {
    if let Some((rest, v)) = spec_numbered("POWER"@, s) {
        Some(("POWER"@, rest, v))
    } else if let Some((rest, v)) = spec_numbered("GROUND"@, s) {
        Some(("GROUND"@, rest, v))
    } else if let Some((rest, v)) = spec_numbered("INNER"@, s) {
        Some(("INNER"@, rest, v))
    } else if let Some((rest, v)) = spec_numbered("LAYER"@, s) {
        Some(("LAYER"@, rest, v))
    } else if let Some((rest, v)) = spec_numbered("LAYERSET"@, s) {
        Some(("LAYERSET"@, rest, v))
    } else {
        None
    }
}

/// The layer without a number whose name stands at the head of `s`.
pub open spec fn spec_layer_named(s: Seq<char>) -> Parsed<Layer> {
    if let Some(rest) = spec_tag("TOP"@, s) {
        Ok((rest, Layer::Top))
    } else if let Some(rest) = spec_tag("BOTTOM"@, s) {
        Ok((rest, Layer::Bottom))
    } else if let Some(rest) = spec_tag("SOLDERMASK_TOP"@, s) {
        Ok((rest, Layer::SoldermaskTop))
    } else if let Some(rest) = spec_tag("SOLDERMASK_BOTTOM"@, s) {
        Ok((rest, Layer::SoldermaskBottom))
    } else if let Some(rest) = spec_tag("SILKSCREEN_TOP"@, s) {
        Ok((rest, Layer::SilkscreenTop))
    } else if let Some(rest) = spec_tag("SILKSCREEN_BOTTOM"@, s) {
        Ok((rest, Layer::SilkscreenBottom))
    } else if let Some(rest) = spec_tag("SOLDERPASTE_TOP"@, s) {
        Ok((rest, Layer::SolderpasteTop))
    } else if let Some(rest) = spec_tag("SOLDERPASTE_BOTTOM"@, s) {
        Ok((rest, Layer::SolderpasteBottom))
    } else if let Some(rest) = spec_tag("INNER"@, s) {
        Ok((rest, Layer::Inner))
    } else if let Some(rest) = spec_tag("ALL"@, s) {
        Ok((rest, Layer::All))
    } else {
        spec_expected(Token::Layer, s)
    }
}

/// The layer at the head of `s`. A numbered layer is tried first; where its
/// number does not fit in 16 bits, the layers without a number are tried.
#[verifier::opaque]
pub open spec fn spec_layer(s: Seq<char>) -> Parsed<Layer> {
    match spec_layer_family(s) {
        Some((k, rest, v)) => match spec_layer_from_pair(k, v) {
            Some(l) => Ok((rest, l)),
            None => spec_layer_named(s),
        },
        None => spec_layer_named(s),
    }
}

/// The text of a layer.
pub open spec fn layer_text(l: Layer) -> Seq<char> {
    match l {
        Layer::Top => "TOP"@,
        Layer::Bottom => "BOTTOM"@,
        Layer::SoldermaskTop => "SOLDERMASK_TOP"@,
        Layer::SoldermaskBottom => "SOLDERMASK_BOTTOM"@,
        Layer::SilkscreenTop => "SILKSCREEN_TOP"@,
        Layer::SilkscreenBottom => "SILKSCREEN_BOTTOM"@,
        Layer::SolderpasteTop => "SOLDERPASTE_TOP"@,
        Layer::SolderpasteBottom => "SOLDERPASTE_BOTTOM"@,
        Layer::PowerX(n) => "POWER"@ + decimal_digits(n as nat),
        Layer::GroundX(n) => "GROUND"@ + decimal_digits(n as nat),
        Layer::Inner => "INNER"@,
        Layer::InnerX(n) => "INNER"@ + decimal_digits(n as nat),
        Layer::All => "ALL"@,
        Layer::LayerX(n) => "LAYER"@ + decimal_digits(n as nat),
        Layer::LayersetX(n) => "LAYERSET"@ + decimal_digits(n as nat),
    }
}

impl Layer {
    /// The layer of a family with the number that the digits spell.
    pub fn from_pair(user: (&str, &str)) -> (r: Result<Layer, &'static str>)
        requires
            is_numbered_layer(user.0@),
        ensures
            match r {
                Ok(l) => spec_layer_from_pair(user.0@, user.1@) == Some(l),
                Err(e) => spec_layer_from_pair(user.0@, user.1@) is None && e@
                    == "Failed to parse u16"@,
            },
    {
        let (k, v) = user;
        let n = match parse_u16(v) {
            Some(n) => n,
            None => {
                return Err("Failed to parse u16");
            },
        };
        if str_eq(k, "POWER") {
            Ok(Layer::PowerX(n))
        } else if str_eq(k, "GROUND") {
            Ok(Layer::GroundX(n))
        } else if str_eq(k, "INNER") {
            Ok(Layer::InnerX(n))
        } else if str_eq(k, "LAYER") {
            Ok(Layer::LayerX(n))
        } else {
            Ok(Layer::LayersetX(n))
        }
    }
}

/// Parses the digits that follow the family name `k` at the head of `s`.
fn numbered<'a>(k: &str, s: &'a str) -> (r: Option<(&'a str, &'a str)>)
    ensures
        match r {
            Some((rest, v)) => spec_numbered(k@, s@) == Some((rest@, v@)),
            None => spec_numbered(k@, s@) is None,
        },
{
    let s1 = match eat(k, s) {
        Some(rest) => rest,
        None => {
            return None;
        },
    };
    match take_while(CharClass::Digit, s1) {
        Ok((rest, taken)) => {
            proof {
                lemma_prefix_len(s1@, CharClass::Digit);
            }
            if taken.is_empty() {
                None
            } else {
                Some((rest, taken))
            }
        },
        Err(_) => None,
    }
}

/// Parses the layer without a number at the head of `s`.
fn layer_named(s: &str) -> (r: Result<(&str, Layer), ParseError>)
    ensures
        agrees(r, spec_layer_named(s@)),
{
    if let Some(rest) = eat("TOP", s) {
        Ok((rest, Layer::Top))
    } else if let Some(rest) = eat("BOTTOM", s) {
        Ok((rest, Layer::Bottom))
    } else if let Some(rest) = eat("SOLDERMASK_TOP", s) {
        Ok((rest, Layer::SoldermaskTop))
    } else if let Some(rest) = eat("SOLDERMASK_BOTTOM", s) {
        Ok((rest, Layer::SoldermaskBottom))
    } else if let Some(rest) = eat("SILKSCREEN_TOP", s) {
        Ok((rest, Layer::SilkscreenTop))
    } else if let Some(rest) = eat("SILKSCREEN_BOTTOM", s) {
        Ok((rest, Layer::SilkscreenBottom))
    } else if let Some(rest) = eat("SOLDERPASTE_TOP", s) {
        Ok((rest, Layer::SolderpasteTop))
    } else if let Some(rest) = eat("SOLDERPASTE_BOTTOM", s) {
        Ok((rest, Layer::SolderpasteBottom))
    } else if let Some(rest) = eat("INNER", s) {
        Ok((rest, Layer::Inner))
    } else if let Some(rest) = eat("ALL", s) {
        Ok((rest, Layer::All))
    } else {
        Err(ParseError::expected(Token::Layer, s))
    }
}

/// Parses the layer at the head of `s`.
pub fn layer(s: &str) -> (r: Result<(&str, Layer), ParseError>)
    ensures
        agrees(r, spec_layer(s@)),
{
    reveal(spec_layer);
    let family = if let Some((rest, v)) = numbered("POWER", s) {
        Some(("POWER", rest, v))
    } else if let Some((rest, v)) = numbered("GROUND", s) {
        Some(("GROUND", rest, v))
    } else if let Some((rest, v)) = numbered("INNER", s) {
        Some(("INNER", rest, v))
    } else if let Some((rest, v)) = numbered("LAYER", s) {
        Some(("LAYER", rest, v))
    } else if let Some((rest, v)) = numbered("LAYERSET", s) {
        Some(("LAYERSET", rest, v))
    } else {
        None
    };
    match family {
        Some((k, rest, v)) => match Layer::from_pair((k, v)) {
            Ok(l) => Ok((rest, l)),
            Err(_) => layer_named(s),
        },
        None => layer_named(s),
    }
}

impl ToGencadString for Layer {
    open spec fn gencad(&self) -> Seq<char> {
        layer_text(*self)
    }

    fn to_gencad_string(&self) -> (r: String) {
        match self {
            Layer::Top => String::from_str("TOP"),
            Layer::Bottom => String::from_str("BOTTOM"),
            Layer::SoldermaskTop => String::from_str("SOLDERMASK_TOP"),
            Layer::SoldermaskBottom => String::from_str("SOLDERMASK_BOTTOM"),
            Layer::SilkscreenTop => String::from_str("SILKSCREEN_TOP"),
            Layer::SilkscreenBottom => String::from_str("SILKSCREEN_BOTTOM"),
            Layer::SolderpasteTop => String::from_str("SOLDERPASTE_TOP"),
            Layer::SolderpasteBottom => String::from_str("SOLDERPASTE_BOTTOM"),
            Layer::PowerX(n) => {
                let mut out = String::from_str("POWER");
                push_decimal(&mut out, *n);
                out
            },
            Layer::GroundX(n) => {
                let mut out = String::from_str("GROUND");
                push_decimal(&mut out, *n);
                out
            },
            Layer::Inner => String::from_str("INNER"),
            Layer::InnerX(n) => {
                let mut out = String::from_str("INNER");
                push_decimal(&mut out, *n);
                out
            },
            Layer::All => String::from_str("ALL"),
            Layer::LayerX(n) => {
                let mut out = String::from_str("LAYER");
                push_decimal(&mut out, *n);
                out
            },
            Layer::LayersetX(n) => {
                let mut out = String::from_str("LAYERSET");
                push_decimal(&mut out, *n);
                out
            },
        }
    }
}

/// A layer is read back from its text.
pub proof fn lemma_layer_round_trip(v: Layer, t: Seq<char>)
    requires
        ends_token(t),
    ensures
        starts_token(layer_text(v)),
        spec_layer(layer_text(v) + t) == Ok::<(Seq<char>, Layer), ParseErrorView>((t, v)),
{
    match v {
        Layer::Top => {
            lemma_layer_named_round_trip(v, t);
        },
        Layer::Bottom => {
            lemma_layer_named_round_trip(v, t);
        },
        Layer::SoldermaskTop => {
            lemma_layer_named_round_trip(v, t);
        },
        Layer::SoldermaskBottom => {
            lemma_layer_named_round_trip(v, t);
        },
        Layer::SilkscreenTop => {
            lemma_layer_named_round_trip(v, t);
        },
        Layer::SilkscreenBottom => {
            lemma_layer_named_round_trip(v, t);
        },
        Layer::SolderpasteTop => {
            lemma_layer_named_round_trip(v, t);
        },
        Layer::SolderpasteBottom => {
            lemma_layer_named_round_trip(v, t);
        },
        Layer::Inner => {
            lemma_layer_named_round_trip(v, t);
        },
        Layer::All => {
            lemma_layer_named_round_trip(v, t);
        },
        Layer::PowerX(n) => {
            lemma_layer_numbered_round_trip(v, n, t);
        },
        Layer::GroundX(n) => {
            lemma_layer_numbered_round_trip(v, n, t);
        },
        Layer::InnerX(n) => {
            lemma_layer_numbered_round_trip(v, n, t);
        },
        Layer::LayerX(n) => {
            lemma_layer_numbered_round_trip(v, n, t);
        },
        Layer::LayersetX(n) => {
            lemma_layer_numbered_round_trip(v, n, t);
        },
    }
}

/// A layer without a number is read back from its text.
proof fn lemma_layer_named_round_trip(v: Layer, t: Seq<char>)
    requires
        ends_token(t),
        v is Top || v is Bottom || v is SoldermaskTop || v is SoldermaskBottom || v
            is SilkscreenTop || v is SilkscreenBottom || v is SolderpasteTop || v
            is SolderpasteBottom || v is Inner || v is All,
    ensures
        starts_token(layer_text(v)),
        spec_layer(layer_text(v) + t) == Ok::<(Seq<char>, Layer), ParseErrorView>((t, v)),
{
    reveal(spec_layer);
    reveal_strlit("ALL");
    reveal_strlit("BOTTOM");
    reveal_strlit("GROUND");
    reveal_strlit("INNER");
    reveal_strlit("LAYER");
    reveal_strlit("LAYERSET");
    reveal_strlit("POWER");
    reveal_strlit("SILKSCREEN_BOTTOM");
    reveal_strlit("SILKSCREEN_TOP");
    reveal_strlit("SOLDERMASK_BOTTOM");
    reveal_strlit("SOLDERMASK_TOP");
    reveal_strlit("SOLDERPASTE_BOTTOM");
    reveal_strlit("SOLDERPASTE_TOP");
    reveal_strlit("TOP");
    let s = layer_text(v) + t;
    match v {
        Layer::Top => {
            assert(s[0] == 'T');
            lemma_tag_differs("POWER"@, s, 0);
            assert(s[0] == 'T');
            lemma_tag_differs("GROUND"@, s, 0);
            assert(s[0] == 'T');
            lemma_tag_differs("INNER"@, s, 0);
            assert(s[0] == 'T');
            lemma_tag_differs("LAYER"@, s, 0);
            assert(s[0] == 'T');
            lemma_tag_differs("LAYERSET"@, s, 0);
            assert(spec_layer_family(s) is None);
            lemma_tag_concat("TOP"@, t);
        },
        Layer::Bottom => {
            assert(s[0] == 'B');
            lemma_tag_differs("POWER"@, s, 0);
            assert(s[0] == 'B');
            lemma_tag_differs("GROUND"@, s, 0);
            assert(s[0] == 'B');
            lemma_tag_differs("INNER"@, s, 0);
            assert(s[0] == 'B');
            lemma_tag_differs("LAYER"@, s, 0);
            assert(s[0] == 'B');
            lemma_tag_differs("LAYERSET"@, s, 0);
            assert(spec_layer_family(s) is None);
            assert(s[0] == 'B');
            lemma_tag_differs("TOP"@, s, 0);
            lemma_tag_concat("BOTTOM"@, t);
        },
        Layer::SoldermaskTop => {
            assert(s[0] == 'S');
            lemma_tag_differs("POWER"@, s, 0);
            assert(s[0] == 'S');
            lemma_tag_differs("GROUND"@, s, 0);
            assert(s[0] == 'S');
            lemma_tag_differs("INNER"@, s, 0);
            assert(s[0] == 'S');
            lemma_tag_differs("LAYER"@, s, 0);
            assert(s[0] == 'S');
            lemma_tag_differs("LAYERSET"@, s, 0);
            assert(spec_layer_family(s) is None);
            assert(s[0] == 'S');
            lemma_tag_differs("TOP"@, s, 0);
            assert(s[0] == 'S');
            lemma_tag_differs("BOTTOM"@, s, 0);
            lemma_tag_concat("SOLDERMASK_TOP"@, t);
        },
        Layer::SoldermaskBottom => {
            assert(s[0] == 'S');
            lemma_tag_differs("POWER"@, s, 0);
            assert(s[0] == 'S');
            lemma_tag_differs("GROUND"@, s, 0);
            assert(s[0] == 'S');
            lemma_tag_differs("INNER"@, s, 0);
            assert(s[0] == 'S');
            lemma_tag_differs("LAYER"@, s, 0);
            assert(s[0] == 'S');
            lemma_tag_differs("LAYERSET"@, s, 0);
            assert(spec_layer_family(s) is None);
            assert(s[0] == 'S');
            lemma_tag_differs("TOP"@, s, 0);
            assert(s[0] == 'S');
            lemma_tag_differs("BOTTOM"@, s, 0);
            assert(s[11] == 'B');
            lemma_tag_differs("SOLDERMASK_TOP"@, s, 11);
            lemma_tag_concat("SOLDERMASK_BOTTOM"@, t);
        },
        Layer::SilkscreenTop => {
            assert(s[0] == 'S');
            lemma_tag_differs("POWER"@, s, 0);
            assert(s[0] == 'S');
            lemma_tag_differs("GROUND"@, s, 0);
            assert(s[0] == 'S');
            lemma_tag_differs("INNER"@, s, 0);
            assert(s[0] == 'S');
            lemma_tag_differs("LAYER"@, s, 0);
            assert(s[0] == 'S');
            lemma_tag_differs("LAYERSET"@, s, 0);
            assert(spec_layer_family(s) is None);
            assert(s[0] == 'S');
            lemma_tag_differs("TOP"@, s, 0);
            assert(s[0] == 'S');
            lemma_tag_differs("BOTTOM"@, s, 0);
            assert(s[1] == 'I');
            lemma_tag_differs("SOLDERMASK_TOP"@, s, 1);
            assert(s[1] == 'I');
            lemma_tag_differs("SOLDERMASK_BOTTOM"@, s, 1);
            lemma_tag_concat("SILKSCREEN_TOP"@, t);
        },
        Layer::SilkscreenBottom => {
            assert(s[0] == 'S');
            lemma_tag_differs("POWER"@, s, 0);
            assert(s[0] == 'S');
            lemma_tag_differs("GROUND"@, s, 0);
            assert(s[0] == 'S');
            lemma_tag_differs("INNER"@, s, 0);
            assert(s[0] == 'S');
            lemma_tag_differs("LAYER"@, s, 0);
            assert(s[0] == 'S');
            lemma_tag_differs("LAYERSET"@, s, 0);
            assert(spec_layer_family(s) is None);
            assert(s[0] == 'S');
            lemma_tag_differs("TOP"@, s, 0);
            assert(s[0] == 'S');
            lemma_tag_differs("BOTTOM"@, s, 0);
            assert(s[1] == 'I');
            lemma_tag_differs("SOLDERMASK_TOP"@, s, 1);
            assert(s[1] == 'I');
            lemma_tag_differs("SOLDERMASK_BOTTOM"@, s, 1);
            assert(s[11] == 'B');
            lemma_tag_differs("SILKSCREEN_TOP"@, s, 11);
            lemma_tag_concat("SILKSCREEN_BOTTOM"@, t);
        },
        Layer::SolderpasteTop => {
            assert(s[0] == 'S');
            lemma_tag_differs("POWER"@, s, 0);
            assert(s[0] == 'S');
            lemma_tag_differs("GROUND"@, s, 0);
            assert(s[0] == 'S');
            lemma_tag_differs("INNER"@, s, 0);
            assert(s[0] == 'S');
            lemma_tag_differs("LAYER"@, s, 0);
            assert(s[0] == 'S');
            lemma_tag_differs("LAYERSET"@, s, 0);
            assert(spec_layer_family(s) is None);
            assert(s[0] == 'S');
            lemma_tag_differs("TOP"@, s, 0);
            assert(s[0] == 'S');
            lemma_tag_differs("BOTTOM"@, s, 0);
            assert(s[6] == 'P');
            lemma_tag_differs("SOLDERMASK_TOP"@, s, 6);
            assert(s[6] == 'P');
            lemma_tag_differs("SOLDERMASK_BOTTOM"@, s, 6);
            assert(s[1] == 'O');
            lemma_tag_differs("SILKSCREEN_TOP"@, s, 1);
            assert(s[1] == 'O');
            lemma_tag_differs("SILKSCREEN_BOTTOM"@, s, 1);
            lemma_tag_concat("SOLDERPASTE_TOP"@, t);
        },
        Layer::SolderpasteBottom => {
            assert(s[0] == 'S');
            lemma_tag_differs("POWER"@, s, 0);
            assert(s[0] == 'S');
            lemma_tag_differs("GROUND"@, s, 0);
            assert(s[0] == 'S');
            lemma_tag_differs("INNER"@, s, 0);
            assert(s[0] == 'S');
            lemma_tag_differs("LAYER"@, s, 0);
            assert(s[0] == 'S');
            lemma_tag_differs("LAYERSET"@, s, 0);
            assert(spec_layer_family(s) is None);
            assert(s[0] == 'S');
            lemma_tag_differs("TOP"@, s, 0);
            assert(s[0] == 'S');
            lemma_tag_differs("BOTTOM"@, s, 0);
            assert(s[6] == 'P');
            lemma_tag_differs("SOLDERMASK_TOP"@, s, 6);
            assert(s[6] == 'P');
            lemma_tag_differs("SOLDERMASK_BOTTOM"@, s, 6);
            assert(s[1] == 'O');
            lemma_tag_differs("SILKSCREEN_TOP"@, s, 1);
            assert(s[1] == 'O');
            lemma_tag_differs("SILKSCREEN_BOTTOM"@, s, 1);
            assert(s[12] == 'B');
            lemma_tag_differs("SOLDERPASTE_TOP"@, s, 12);
            lemma_tag_concat("SOLDERPASTE_BOTTOM"@, t);
        },
        Layer::Inner => {
            assert(s[0] == 'I');
            lemma_tag_differs("POWER"@, s, 0);
            assert(s[0] == 'I');
            lemma_tag_differs("GROUND"@, s, 0);
            lemma_tag_concat("INNER"@, t);
            assert(spec_numbered("INNER"@, s) is None);
            assert(s[0] == 'I');
            lemma_tag_differs("LAYER"@, s, 0);
            assert(s[0] == 'I');
            lemma_tag_differs("LAYERSET"@, s, 0);
            assert(spec_layer_family(s) is None);
            assert(s[0] == 'I');
            lemma_tag_differs("TOP"@, s, 0);
            assert(s[0] == 'I');
            lemma_tag_differs("BOTTOM"@, s, 0);
            assert(s[0] == 'I');
            lemma_tag_differs("SOLDERMASK_TOP"@, s, 0);
            assert(s[0] == 'I');
            lemma_tag_differs("SOLDERMASK_BOTTOM"@, s, 0);
            assert(s[0] == 'I');
            lemma_tag_differs("SILKSCREEN_TOP"@, s, 0);
            assert(s[0] == 'I');
            lemma_tag_differs("SILKSCREEN_BOTTOM"@, s, 0);
            assert(s[0] == 'I');
            lemma_tag_differs("SOLDERPASTE_TOP"@, s, 0);
            assert(s[0] == 'I');
            lemma_tag_differs("SOLDERPASTE_BOTTOM"@, s, 0);
            lemma_tag_concat("INNER"@, t);
        },
        Layer::All => {
            assert(s[0] == 'A');
            lemma_tag_differs("POWER"@, s, 0);
            assert(s[0] == 'A');
            lemma_tag_differs("GROUND"@, s, 0);
            assert(s[0] == 'A');
            lemma_tag_differs("INNER"@, s, 0);
            assert(s[0] == 'A');
            lemma_tag_differs("LAYER"@, s, 0);
            assert(s[0] == 'A');
            lemma_tag_differs("LAYERSET"@, s, 0);
            assert(spec_layer_family(s) is None);
            assert(s[0] == 'A');
            lemma_tag_differs("TOP"@, s, 0);
            assert(s[0] == 'A');
            lemma_tag_differs("BOTTOM"@, s, 0);
            assert(s[0] == 'A');
            lemma_tag_differs("SOLDERMASK_TOP"@, s, 0);
            assert(s[0] == 'A');
            lemma_tag_differs("SOLDERMASK_BOTTOM"@, s, 0);
            assert(s[0] == 'A');
            lemma_tag_differs("SILKSCREEN_TOP"@, s, 0);
            assert(s[0] == 'A');
            lemma_tag_differs("SILKSCREEN_BOTTOM"@, s, 0);
            assert(s[0] == 'A');
            lemma_tag_differs("SOLDERPASTE_TOP"@, s, 0);
            assert(s[0] == 'A');
            lemma_tag_differs("SOLDERPASTE_BOTTOM"@, s, 0);
            assert(s[0] == 'A');
            lemma_tag_differs("INNER"@, s, 0);
            lemma_tag_concat("ALL"@, t);
        },
        _ => {},
    }
}

/// The family name of a numbered layer.
pub open spec fn layer_family(v: Layer) -> Seq<char> {
    match v {
        Layer::PowerX(_) => "POWER"@,
        Layer::GroundX(_) => "GROUND"@,
        Layer::InnerX(_) => "INNER"@,
        Layer::LayerX(_) => "LAYER"@,
        _ => "LAYERSET"@,
    }
}

/// A numbered layer is read back from its text.
proof fn lemma_layer_numbered_round_trip(v: Layer, n: u16, t: Seq<char>)
    requires
        ends_token(t),
        v == Layer::PowerX(n) || v == Layer::GroundX(n) || v == Layer::InnerX(n) || v
            == Layer::LayerX(n) || v == Layer::LayersetX(n),
    ensures
        starts_token(layer_text(v)),
        spec_layer(layer_text(v) + t) == Ok::<(Seq<char>, Layer), ParseErrorView>((t, v)),
{
    reveal(spec_layer);
    reveal_strlit("POWER");
    reveal_strlit("GROUND");
    reveal_strlit("INNER");
    reveal_strlit("LAYER");
    reveal_strlit("LAYERSET");
    let d = decimal_digits(n as nat);
    let s = layer_text(v) + t;
    lemma_p_integer_round_trip(n, t);
    assert((d + t).take(d.len() as int) =~= d);
    assert((d + t).skip(d.len() as int) =~= t);
    assert((d + t)[0] == d[0]);
    match v {
        Layer::PowerX(_) => {
            assert(s =~= "POWER"@ + (d + t));
            assert(s[5] == d[0]);
            lemma_tag_concat("POWER"@, d + t);
            assert(spec_numbered("POWER"@, s) == Some((t, d)));
            assert(spec_layer_family(s) == Some(("POWER"@, t, d)));
            assert(spec_layer_from_pair("POWER"@, d) == Some(v));
            assert(layer_text(v)[0] == 'P');
        },
        Layer::GroundX(_) => {
            assert(s =~= "GROUND"@ + (d + t));
            assert(s[6] == d[0]);
            assert(s[0] == 'G');
            lemma_tag_differs("POWER"@, s, 0);
            assert("GROUND"@.len() != "POWER"@.len());
            lemma_tag_concat("GROUND"@, d + t);
            assert(spec_numbered("GROUND"@, s) == Some((t, d)));
            assert(spec_layer_family(s) == Some(("GROUND"@, t, d)));
            assert(spec_layer_from_pair("GROUND"@, d) == Some(v));
            assert(layer_text(v)[0] == 'G');
        },
        Layer::InnerX(_) => {
            assert(s =~= "INNER"@ + (d + t));
            assert(s[5] == d[0]);
            assert(s[0] == 'I');
            lemma_tag_differs("POWER"@, s, 0);
            assert("INNER"@[0] != "POWER"@[0]);
            assert(s[0] == 'I');
            lemma_tag_differs("GROUND"@, s, 0);
            assert("INNER"@.len() != "GROUND"@.len());
            lemma_tag_concat("INNER"@, d + t);
            assert(spec_numbered("INNER"@, s) == Some((t, d)));
            assert(spec_layer_family(s) == Some(("INNER"@, t, d)));
            assert(spec_layer_from_pair("INNER"@, d) == Some(v));
            assert(layer_text(v)[0] == 'I');
        },
        Layer::LayerX(_) => {
            assert(s =~= "LAYER"@ + (d + t));
            assert(s[5] == d[0]);
            assert(s[0] == 'L');
            lemma_tag_differs("POWER"@, s, 0);
            assert("LAYER"@[0] != "POWER"@[0]);
            assert(s[0] == 'L');
            lemma_tag_differs("GROUND"@, s, 0);
            assert("LAYER"@.len() != "GROUND"@.len());
            assert(s[0] == 'L');
            lemma_tag_differs("INNER"@, s, 0);
            assert("LAYER"@[0] != "INNER"@[0]);
            lemma_tag_concat("LAYER"@, d + t);
            assert(spec_numbered("LAYER"@, s) == Some((t, d)));
            assert(spec_layer_family(s) == Some(("LAYER"@, t, d)));
            assert(spec_layer_from_pair("LAYER"@, d) == Some(v));
            assert(layer_text(v)[0] == 'L');
        },
        Layer::LayersetX(_) => {
            assert(s =~= "LAYERSET"@ + (d + t));
            assert(s[8] == d[0]);
            assert(s[0] == 'L');
            lemma_tag_differs("POWER"@, s, 0);
            assert("LAYERSET"@.len() != "POWER"@.len());
            assert(s[0] == 'L');
            lemma_tag_differs("GROUND"@, s, 0);
            assert("LAYERSET"@.len() != "GROUND"@.len());
            assert(s[0] == 'L');
            lemma_tag_differs("INNER"@, s, 0);
            assert("LAYERSET"@.len() != "INNER"@.len());
            assert("LAYER"@.is_prefix_of(s)) by {
                assert(s.subrange(0, 5) =~= "LAYER"@);
            }
            assert(s.skip(5)[0] == 'S');
            assert(spec_numbered("LAYER"@, s) is None);
            assert("LAYERSET"@.len() != "LAYER"@.len());
            lemma_tag_concat("LAYERSET"@, d + t);
            assert(spec_numbered("LAYERSET"@, s) == Some((t, d)));
            assert(spec_layer_family(s) == Some(("LAYERSET"@, t, d)));
            assert(spec_layer_from_pair("LAYERSET"@, d) == Some(v));
            assert(layer_text(v)[0] == 'L');
        },
        _ => {},
    }
}

/// The text of a layer can stand on one line.
pub proof fn lemma_layer_text_one_line(v: Layer)
    ensures
        one_line(layer_text(v)),
{
    reveal_strlit("TOP");
    reveal_strlit("BOTTOM");
    reveal_strlit("SOLDERMASK_TOP");
    reveal_strlit("SOLDERMASK_BOTTOM");
    reveal_strlit("SILKSCREEN_TOP");
    reveal_strlit("SILKSCREEN_BOTTOM");
    reveal_strlit("SOLDERPASTE_TOP");
    reveal_strlit("SOLDERPASTE_BOTTOM");
    reveal_strlit("INNER");
    reveal_strlit("ALL");
    reveal_strlit("POWER");
    reveal_strlit("GROUND");
    reveal_strlit("LAYER");
    reveal_strlit("LAYERSET");
    match v {
        Layer::PowerX(n) => {
            lemma_decimal_one_line(n as nat);
            lemma_one_line_concat("POWER"@, decimal_digits(n as nat));
        },
        Layer::GroundX(n) => {
            lemma_decimal_one_line(n as nat);
            lemma_one_line_concat("GROUND"@, decimal_digits(n as nat));
        },
        Layer::InnerX(n) => {
            lemma_decimal_one_line(n as nat);
            lemma_one_line_concat("INNER"@, decimal_digits(n as nat));
        },
        Layer::LayerX(n) => {
            lemma_decimal_one_line(n as nat);
            lemma_one_line_concat("LAYER"@, decimal_digits(n as nat));
        },
        Layer::LayersetX(n) => {
            lemma_decimal_one_line(n as nat);
            lemma_one_line_concat("LAYERSET"@, decimal_digits(n as nat));
        },
        _ => {},
    }
}

} // verus!
