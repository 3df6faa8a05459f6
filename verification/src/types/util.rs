//! Helpers of the grammar that are no GenCAD types themselves.

use vstd::prelude::*;
use crate::error::{agrees, Parsed, ParseError, ParseErrorView, spec_expected, Token};
use crate::lex::{CharClass, lemma_prefix_len, lemma_prefix_len_all, prefix_len, tag, take_while};

verus! {

/// One or more spaces at the head of `s`.
pub open spec fn spec_spaces(s: Seq<char>) -> Parsed<Seq<char>> {
    let n = prefix_len(s, CharClass::Space);
    if n == 0 {
        spec_expected(Token::Spaces, s)
    } else {
        Ok((s.skip(n as int), s.take(n as int)))
    }
}

/// Takes the spaces at the head of `s`, at least one.
pub fn spaces(s: &str) -> (r: Result<(&str, &str), ParseError>)
    ensures
        agrees(r, spec_spaces(s@)),
{
    match take_while(CharClass::Space, s) {
        Ok((rest, taken)) => {
            proof {
                lemma_prefix_len(s@, CharClass::Space);
            }
            if taken.is_empty() {
                Err(ParseError::expected(Token::Spaces, s))
            } else {
                Ok((rest, taken))
            }
        },
        Err(_) => Err(ParseError::expected(Token::Spaces, s)),
    }
}

/// What is left of `s` behind the literal `t`, if `s` starts with it.
pub open spec fn spec_tag(t: Seq<char>, s: Seq<char>) -> Option<Seq<char>> {
    if t.is_prefix_of(s) {
        Some(s.skip(t.len() as int))
    } else {
        None
    }
}

/// Takes the literal `t` from the head of `s` and returns what is left, if
/// `s` starts with it.
pub fn eat<'a>(t: &str, s: &'a str) -> (r: Option<&'a str>)
    ensures
        match r {
            Some(rest) => spec_tag(t@, s@) == Some(rest@),
            None => spec_tag(t@, s@) is None,
        },
{
    match tag(t, s) {
        Ok((rest, _)) => Some(rest),
        Err(_) => None,
    }
}

/// A text starts with a literal of one character exactly when that character
/// is its first.
pub proof fn lemma_tag_one(t: Seq<char>, s: Seq<char>)
    requires
        t.len() == 1,
    ensures
        t.is_prefix_of(s) <==> s.len() > 0 && s[0] == t[0],
{
    if s.len() > 0 && s[0] == t[0] {
        assert(t =~= s.subrange(0, 1));
    }
    if t.is_prefix_of(s) {
        assert(s[0] == t[0]);
    }
}

/// Whether a token can end before `t`: `t` is empty or begins with a space.
pub open spec fn ends_token(t: Seq<char>) -> bool {
    t.len() == 0 || t[0] == ' '
}

/// Whether `s` can stand as a token behind spaces: it is not empty and does
/// not begin with a space.
pub open spec fn starts_token(s: Seq<char>) -> bool {
    s.len() > 0 && s[0] != ' '
}

/// One space before a token is the spaces before it.
pub proof fn lemma_one_space(u: Seq<char>)
    requires
        u.len() == 0 || u[0] != ' ',
    ensures
        spec_spaces(" "@ + u) == Ok::<(Seq<char>, Seq<char>), ParseErrorView>((u, " "@)),
{
    reveal_strlit(" ");
    lemma_prefix_len_all(" "@, u, CharClass::Space);
}

/// A text that begins with a literal has the rest behind the literal.
pub proof fn lemma_tag_concat(lit: Seq<char>, t: Seq<char>)
    ensures
        spec_tag(lit, lit + t) == Some(t),
{
    assert((lit + t).subrange(0, lit.len() as int) =~= lit);
    assert((lit + t).skip(lit.len() as int) =~= t);
}

/// A text that differs from a literal at a place inside the literal does not
/// begin with it.
pub proof fn lemma_tag_differs(lit: Seq<char>, s: Seq<char>, at: int)
    requires
        0 <= at < lit.len(),
        s.len() <= at || s[at] != lit[at],
    ensures
        spec_tag(lit, s) is None,
{
    if lit.is_prefix_of(s) {
        assert(s[at] == lit[at]);
    }
}

} // verus!
