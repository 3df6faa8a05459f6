//! The flags of the format: `0` for false, a word for true.

use vstd::prelude::*;
use vstd::string::*;
use crate::error::{agrees, Parsed, ParseError, ParseErrorView, spec_expected, Token};
use crate::lex::one_line;
use crate::types::util::{eat, lemma_tag_concat, lemma_tag_differs, spec_tag, starts_token};

verus! {

/// The flag at the head of `s` whose true value is written `yes`.
pub open spec fn spec_flag(yes: Seq<char>, token: Token, s: Seq<char>) -> Parsed<bool> {
    if let Some(rest) = spec_tag("0"@, s) {
        Ok((rest, false))
    } else if let Some(rest) = spec_tag(yes, s) {
        Ok((rest, true))
    } else {
        spec_expected(token, s)
    }
}

/// The text of a flag whose true value is written `yes`.
pub open spec fn flag_text(yes: Seq<char>, b: bool) -> Seq<char> {
    if b {
        yes
    } else {
        "0"@
    }
}

/// The fill flag at the head of `s`: `0` or `YES`.
pub open spec fn spec_filled_ref(s: Seq<char>) -> Parsed<bool> {
    spec_flag("YES"@, Token::Filled, s)
}

/// The flip flag at the head of `s`: `0` or `FLIP`.
pub open spec fn spec_flip(s: Seq<char>) -> Parsed<bool> {
    spec_flag("FLIP"@, Token::Flip, s)
}

/// Parses the fill flag at the head of `s`.
pub fn filled_ref(s: &str) -> (r: Result<(&str, bool), ParseError>)
    ensures
        agrees(r, spec_filled_ref(s@)),
{
    if let Some(rest) = eat("0", s) {
        Ok((rest, false))
    } else if let Some(rest) = eat("YES", s) {
        Ok((rest, true))
    } else {
        Err(ParseError::expected(Token::Filled, s))
    }
}

/// Parses the flip flag at the head of `s`.
pub fn flip(s: &str) -> (r: Result<(&str, bool), ParseError>)
    ensures
        agrees(r, spec_flip(s@)),
{
    if let Some(rest) = eat("0", s) {
        Ok((rest, false))
    } else if let Some(rest) = eat("FLIP", s) {
        Ok((rest, true))
    } else {
        Err(ParseError::expected(Token::Flip, s))
    }
}

/// Renders a flag whose true value is written `yes`.
pub fn flag_to_string(yes: &str, b: bool) -> (r: String)
    ensures
        r@ == flag_text(yes@, b),
{
    if b {
        String::from_str(yes)
    } else {
        String::from_str("0")
    }
}

/// A flag is read back from its text, where the word for true does not
/// begin with `0`.
pub proof fn lemma_flag_round_trip(yes: Seq<char>, token: Token, b: bool, t: Seq<char>)
    requires
        yes.len() > 0,
        yes[0] != '0',
        yes[0] != ' ',
    ensures
        starts_token(flag_text(yes, b)),
        spec_flag(yes, token, flag_text(yes, b) + t) == Ok::<(Seq<char>, bool), ParseErrorView>(
            (t, b),
        ),
{
    reveal_strlit("0");
    let s = flag_text(yes, b) + t;
    if b {
        assert(s[0] == yes[0]);
        lemma_tag_differs("0"@, s, 0);
        lemma_tag_concat(yes, t);
    } else {
        lemma_tag_concat("0"@, t);
    }
}

/// A fill flag is read back from its text.
pub proof fn lemma_filled_round_trip(b: bool, t: Seq<char>)
    ensures
        starts_token(flag_text("YES"@, b)),
        spec_filled_ref(flag_text("YES"@, b) + t) == Ok::<(Seq<char>, bool), ParseErrorView>(
            (t, b),
        ),
{
    reveal_strlit("YES");
    lemma_flag_round_trip("YES"@, Token::Filled, b, t);
}

/// A flip flag is read back from its text.
pub proof fn lemma_flip_round_trip(b: bool, t: Seq<char>)
    ensures
        starts_token(flag_text("FLIP"@, b)),
        spec_flip(flag_text("FLIP"@, b) + t) == Ok::<(Seq<char>, bool), ParseErrorView>((t, b)),
{
    reveal_strlit("FLIP");
    lemma_flag_round_trip("FLIP"@, Token::Flip, b, t);
}

/// The text of a flag can stand on one line, where the word for true can.
pub proof fn lemma_flag_one_line(yes: Seq<char>, b: bool)
    requires
        one_line(yes),
    ensures
        one_line(flag_text(yes, b)),
{
    reveal_strlit("0");
}

} // verus!
