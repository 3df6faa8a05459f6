//! The mirror state of a part.

use vstd::prelude::*;
use vstd::string::*;
use crate::error::{agrees, Parsed, ParseError, ParseErrorView, spec_expected, Token};
use crate::lex::one_line;
use crate::serialization::ToGencadString;
use crate::types::util::{eat, lemma_tag_concat, lemma_tag_differs, spec_tag, starts_token};

verus! {

/// Part mirror status.
#[derive(Debug, Clone, Copy, PartialEq, Eq, Structural)]
pub enum Mirror {
    /// Not mirrored.
    Not,
    /// Mirrored about the x-axis.
    MirrorX,
    /// Mirrored about the y-axis.
    MirrorY,
}

impl DeepView for Mirror {
    type V = Mirror;

    open spec fn deep_view(&self) -> Mirror {
        *self
    }
}

/// The mirror state at the head of `s`.
#[verifier::opaque]
pub open spec fn spec_mirror(s: Seq<char>) -> Parsed<Mirror> {
    if let Some(rest) = spec_tag("0"@, s) {
        Ok((rest, Mirror::Not))
    } else if let Some(rest) = spec_tag("MIRRORX"@, s) {
        Ok((rest, Mirror::MirrorX))
    } else if let Some(rest) = spec_tag("MIRRORY"@, s) {
        Ok((rest, Mirror::MirrorY))
    } else {
        spec_expected(Token::Mirror, s)
    }
}

/// The text of a mirror state.
pub open spec fn mirror_text(m: Mirror) -> Seq<char> {
    match m {
        Mirror::Not => "0"@,
        Mirror::MirrorX => "MIRRORX"@,
        Mirror::MirrorY => "MIRRORY"@,
    }
}

/// Parses the mirror state at the head of `s`.
pub fn mirror(s: &str) -> (r: Result<(&str, Mirror), ParseError>)
    ensures
        agrees(r, spec_mirror(s@)),
{
    reveal(spec_mirror);
    if let Some(rest) = eat("0", s) {
        Ok((rest, Mirror::Not))
    } else if let Some(rest) = eat("MIRRORX", s) {
        Ok((rest, Mirror::MirrorX))
    } else if let Some(rest) = eat("MIRRORY", s) {
        Ok((rest, Mirror::MirrorY))
    } else {
        Err(ParseError::expected(Token::Mirror, s))
    }
}

impl ToGencadString for Mirror {
    open spec fn gencad(&self) -> Seq<char> {
        mirror_text(*self)
    }

    fn to_gencad_string(&self) -> (r: String) {
        match self {
            Mirror::Not => String::from_str("0"),
            Mirror::MirrorX => String::from_str("MIRRORX"),
            Mirror::MirrorY => String::from_str("MIRRORY"),
        }
    }
}

/// A mirror state is read back from its text.
pub proof fn lemma_mirror_round_trip(v: Mirror, t: Seq<char>)
    ensures
        starts_token(mirror_text(v)),
        spec_mirror(mirror_text(v) + t) == Ok::<(Seq<char>, Mirror), ParseErrorView>((t, v)),
{
    reveal(spec_mirror);
    reveal_strlit("0");
    reveal_strlit("MIRRORX");
    reveal_strlit("MIRRORY");
    let s = mirror_text(v) + t;
    match v {
        Mirror::Not => {
            lemma_tag_concat("0"@, t);
        },
        Mirror::MirrorX => {
            assert(s[0] == 'M');
            lemma_tag_differs("0"@, s, 0);
            lemma_tag_concat("MIRRORX"@, t);
        },
        Mirror::MirrorY => {
            assert(s[0] == 'M');
            lemma_tag_differs("0"@, s, 0);
            assert(s[6] == 'Y');
            lemma_tag_differs("MIRRORX"@, s, 6);
            lemma_tag_concat("MIRRORY"@, t);
        },
    }
}

/// The text of a mirror state can stand on one line.
pub proof fn lemma_mirror_text_one_line(v: Mirror)
    ensures
        one_line(mirror_text(v)),
{
    reveal_strlit("0");
    reveal_strlit("MIRRORX");
    reveal_strlit("MIRRORY");
}

} // verus!
