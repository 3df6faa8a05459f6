//! The type of a pad.

use vstd::prelude::*;
use vstd::string::*;
use crate::error::{agrees, Parsed, ParseError, ParseErrorView, spec_expected, Token};
use crate::lex::one_line;
use crate::serialization::ToGencadString;
use crate::types::util::{eat, lemma_tag_concat, lemma_tag_differs, spec_tag, starts_token};

verus! {

/// Pad types.
#[derive(Debug, Clone, Copy, PartialEq, Eq, Structural)]
pub enum PadType {
    /// A solid rectangular pad with semicircular ends (obround).
    Finger,
    /// A solid circle.
    Round,
    /// Any shape ring of copper (width unspecified).
    Annular,
    /// A solid rectangular pad with one semicircular end.
    Bullet,
    /// A solid rectangle or square.
    Rectangular,
    /// A solid hexagonal pad with equal length sides.
    Hexagon,
    /// A solid octagonal pad with equal length sides.
    Octagon,
    /// A solid polygon defined with LINES and ARCS.
    Polygon,
    /// Unknown shape; not defined with LINES and ARCS.
    Unknown,
}

impl DeepView for PadType {
    type V = PadType;

    open spec fn deep_view(&self) -> PadType {
        *self
    }
}

/// The pad type at the head of `s`.
#[verifier::opaque]
pub open spec fn spec_pad_type(s: Seq<char>) -> Parsed<PadType> {
    if let Some(rest) = spec_tag("FINGER"@, s) {
        Ok((rest, PadType::Finger))
    } else if let Some(rest) = spec_tag("ROUND"@, s) {
        Ok((rest, PadType::Round))
    } else if let Some(rest) = spec_tag("ANNULAR"@, s) {
        Ok((rest, PadType::Annular))
    } else if let Some(rest) = spec_tag("BULLET"@, s) {
        Ok((rest, PadType::Bullet))
    } else if let Some(rest) = spec_tag("RECTANGULAR"@, s) {
        Ok((rest, PadType::Rectangular))
    } else if let Some(rest) = spec_tag("HEXAGON"@, s) {
        Ok((rest, PadType::Hexagon))
    } else if let Some(rest) = spec_tag("OCTAGON"@, s) {
        Ok((rest, PadType::Octagon))
    } else if let Some(rest) = spec_tag("POLYGON"@, s) {
        Ok((rest, PadType::Polygon))
    } else if let Some(rest) = spec_tag("UNKNOWN"@, s) {
        Ok((rest, PadType::Unknown))
    } else {
        spec_expected(Token::PadType, s)
    }
}

/// The text of a pad type.
pub open spec fn pad_type_text(t: PadType) -> Seq<char> {
    match t {
        PadType::Finger => "FINGER"@,
        PadType::Round => "ROUND"@,
        PadType::Annular => "ANNULAR"@,
        PadType::Bullet => "BULLET"@,
        PadType::Rectangular => "RECTANGULAR"@,
        PadType::Hexagon => "HEXAGON"@,
        PadType::Octagon => "OCTAGON"@,
        PadType::Polygon => "POLYGON"@,
        PadType::Unknown => "UNKNOWN"@,
    }
}

/// Parses the pad type at the head of `s`.
pub fn pad_type(s: &str) -> (r: Result<(&str, PadType), ParseError>)
    ensures
        agrees(r, spec_pad_type(s@)),
{
    reveal(spec_pad_type);
    if let Some(rest) = eat("FINGER", s) {
        Ok((rest, PadType::Finger))
    } else if let Some(rest) = eat("ROUND", s) {
        Ok((rest, PadType::Round))
    } else if let Some(rest) = eat("ANNULAR", s) {
        Ok((rest, PadType::Annular))
    } else if let Some(rest) = eat("BULLET", s) {
        Ok((rest, PadType::Bullet))
    } else if let Some(rest) = eat("RECTANGULAR", s) {
        Ok((rest, PadType::Rectangular))
    } else if let Some(rest) = eat("HEXAGON", s) {
        Ok((rest, PadType::Hexagon))
    } else if let Some(rest) = eat("OCTAGON", s) {
        Ok((rest, PadType::Octagon))
    } else if let Some(rest) = eat("POLYGON", s) {
        Ok((rest, PadType::Polygon))
    } else if let Some(rest) = eat("UNKNOWN", s) {
        Ok((rest, PadType::Unknown))
    } else {
        Err(ParseError::expected(Token::PadType, s))
    }
}

impl ToGencadString for PadType {
    open spec fn gencad(&self) -> Seq<char> {
        pad_type_text(*self)
    }

    fn to_gencad_string(&self) -> (r: String) {
        match self {
            PadType::Finger => String::from_str("FINGER"),
            PadType::Round => String::from_str("ROUND"),
            PadType::Annular => String::from_str("ANNULAR"),
            PadType::Bullet => String::from_str("BULLET"),
            PadType::Rectangular => String::from_str("RECTANGULAR"),
            PadType::Hexagon => String::from_str("HEXAGON"),
            PadType::Octagon => String::from_str("OCTAGON"),
            PadType::Polygon => String::from_str("POLYGON"),
            PadType::Unknown => String::from_str("UNKNOWN"),
        }
    }
}

/// A pad type is read back from its text.
pub proof fn lemma_pad_type_round_trip(v: PadType, t: Seq<char>)
    ensures
        starts_token(pad_type_text(v)),
        spec_pad_type(pad_type_text(v) + t) == Ok::<(Seq<char>, PadType), ParseErrorView>((t, v)),
{
    reveal(spec_pad_type);
    reveal_strlit("ANNULAR");
    reveal_strlit("BULLET");
    reveal_strlit("FINGER");
    reveal_strlit("HEXAGON");
    reveal_strlit("OCTAGON");
    reveal_strlit("POLYGON");
    reveal_strlit("RECTANGULAR");
    reveal_strlit("ROUND");
    reveal_strlit("UNKNOWN");
    let s = pad_type_text(v) + t;
    match v {
        PadType::Finger => {
            lemma_tag_concat("FINGER"@, t);
        },
        PadType::Round => {
            assert(s[0] == 'R');
            lemma_tag_differs("FINGER"@, s, 0);
            lemma_tag_concat("ROUND"@, t);
        },
        PadType::Annular => {
            assert(s[0] == 'A');
            lemma_tag_differs("FINGER"@, s, 0);
            assert(s[0] == 'A');
            lemma_tag_differs("ROUND"@, s, 0);
            lemma_tag_concat("ANNULAR"@, t);
        },
        PadType::Bullet => {
            assert(s[0] == 'B');
            lemma_tag_differs("FINGER"@, s, 0);
            assert(s[0] == 'B');
            lemma_tag_differs("ROUND"@, s, 0);
            assert(s[0] == 'B');
            lemma_tag_differs("ANNULAR"@, s, 0);
            lemma_tag_concat("BULLET"@, t);
        },
        PadType::Rectangular => {
            assert(s[0] == 'R');
            lemma_tag_differs("FINGER"@, s, 0);
            assert(s[1] == 'E');
            lemma_tag_differs("ROUND"@, s, 1);
            assert(s[0] == 'R');
            lemma_tag_differs("ANNULAR"@, s, 0);
            assert(s[0] == 'R');
            lemma_tag_differs("BULLET"@, s, 0);
            lemma_tag_concat("RECTANGULAR"@, t);
        },
        PadType::Hexagon => {
            assert(s[0] == 'H');
            lemma_tag_differs("FINGER"@, s, 0);
            assert(s[0] == 'H');
            lemma_tag_differs("ROUND"@, s, 0);
            assert(s[0] == 'H');
            lemma_tag_differs("ANNULAR"@, s, 0);
            assert(s[0] == 'H');
            lemma_tag_differs("BULLET"@, s, 0);
            assert(s[0] == 'H');
            lemma_tag_differs("RECTANGULAR"@, s, 0);
            lemma_tag_concat("HEXAGON"@, t);
        },
        PadType::Octagon => {
            assert(s[0] == 'O');
            lemma_tag_differs("FINGER"@, s, 0);
            assert(s[0] == 'O');
            lemma_tag_differs("ROUND"@, s, 0);
            assert(s[0] == 'O');
            lemma_tag_differs("ANNULAR"@, s, 0);
            assert(s[0] == 'O');
            lemma_tag_differs("BULLET"@, s, 0);
            assert(s[0] == 'O');
            lemma_tag_differs("RECTANGULAR"@, s, 0);
            assert(s[0] == 'O');
            lemma_tag_differs("HEXAGON"@, s, 0);
            lemma_tag_concat("OCTAGON"@, t);
        },
        PadType::Polygon => {
            assert(s[0] == 'P');
            lemma_tag_differs("FINGER"@, s, 0);
            assert(s[0] == 'P');
            lemma_tag_differs("ROUND"@, s, 0);
            assert(s[0] == 'P');
            lemma_tag_differs("ANNULAR"@, s, 0);
            assert(s[0] == 'P');
            lemma_tag_differs("BULLET"@, s, 0);
            assert(s[0] == 'P');
            lemma_tag_differs("RECTANGULAR"@, s, 0);
            assert(s[0] == 'P');
            lemma_tag_differs("HEXAGON"@, s, 0);
            assert(s[0] == 'P');
            lemma_tag_differs("OCTAGON"@, s, 0);
            lemma_tag_concat("POLYGON"@, t);
        },
        PadType::Unknown => {
            assert(s[0] == 'U');
            lemma_tag_differs("FINGER"@, s, 0);
            assert(s[0] == 'U');
            lemma_tag_differs("ROUND"@, s, 0);
            assert(s[0] == 'U');
            lemma_tag_differs("ANNULAR"@, s, 0);
            assert(s[0] == 'U');
            lemma_tag_differs("BULLET"@, s, 0);
            assert(s[0] == 'U');
            lemma_tag_differs("RECTANGULAR"@, s, 0);
            assert(s[0] == 'U');
            lemma_tag_differs("HEXAGON"@, s, 0);
            assert(s[0] == 'U');
            lemma_tag_differs("OCTAGON"@, s, 0);
            assert(s[0] == 'U');
            lemma_tag_differs("POLYGON"@, s, 0);
            lemma_tag_concat("UNKNOWN"@, t);
        },
    }
}

/// The text of a pad type can stand on one line.
pub proof fn lemma_pad_type_text_one_line(v: PadType)
    ensures
        one_line(pad_type_text(v)),
{
    reveal_strlit("FINGER");
    reveal_strlit("ROUND");
    reveal_strlit("ANNULAR");
    reveal_strlit("BULLET");
    reveal_strlit("RECTANGULAR");
    reveal_strlit("HEXAGON");
    reveal_strlit("OCTAGON");
    reveal_strlit("POLYGON");
    reveal_strlit("UNKNOWN");
}

} // verus!
