//! The GenCAD number.

use vstd::prelude::*;
use vstd::string::*;
use crate::error::{agrees, Parsed, ParseError, ParseErrorView, spec_expected, Token};
use crate::lex::{
    CharClass, digits_at, float_len, is_sign, lemma_prefix_len, lemma_prefix_len_concat,
    mantissa_len, one_line, recognize_float,
};
use crate::serialization::ToGencadString;
use crate::types::util::{ends_token, starts_token};

verus! {

/// A number, kept as the text it is written with: an optional sign, digits
/// with an optional fraction, and an optional exponent.
#[derive(Debug, Clone, PartialEq, Eq)]
pub struct Number {
    text: String,
}

impl DeepView for Number {
    type V = Seq<char>;

    closed spec fn deep_view(&self) -> Seq<char> {
        self.text@
    }
}

/// Whether `text` is a number from its first to its last character.
pub open spec fn is_number(text: Seq<char>) -> bool {
    float_len(text) == Some(text.len())
}

/// The number at the head of `s`.
pub open spec fn spec_number(s: Seq<char>) -> Parsed<Seq<char>> {
    match float_len(s) {
        Some(n) => Ok((s.skip(n as int), s.take(n as int))),
        None => spec_expected(Token::Number, s),
    }
}

impl Number {
    /// The number that `s` spells, if all of `s` is a number.
    pub fn new(s: &str) -> (r: Option<Number>)
        ensures
            r is Some <==> is_number(s@),
            r matches Some(n) ==> n.deep_view() == s@,
    {
        match recognize_float(s) {
            Ok((rest, taken)) => {
                if rest.is_empty() {
                    proof {
                        lemma_float_len_bound(s@);
                    }
                    Some(Number { text: String::from_str(s) })
                } else {
                    proof {
                        lemma_float_len_bound(s@);
                    }
                    None
                }
            },
            Err(_) => None,
        }
    }

    /// The text of the number.
    pub fn as_str(&self) -> (r: &str)
        ensures
            r@ == self.deep_view(),
    {
        self.text.as_str()
    }
}

/// Parses the number at the head of `s`.
pub fn number(s: &str) -> (r: Result<(&str, Number), ParseError>)
    ensures
        agrees(r, spec_number(s@)),
{
    match recognize_float(s) {
        Ok((rest, taken)) => Ok((rest, Number { text: String::from_str(taken) })),
        Err(_) => Err(ParseError::expected(Token::Number, s)),
    }
}

impl ToGencadString for Number {
    open spec fn gencad(&self) -> Seq<char> {
        self.deep_view()
    }

    fn to_gencad_string(&self) -> (r: String) {
        self.text.clone()
    }
}

/// The digits counted at a position lie inside the text.
pub proof fn lemma_digits_at_bound(s: Seq<char>, at: int)
    ensures
        0 <= at <= s.len() ==> at + digits_at(s, at) <= s.len(),
{
    if 0 <= at <= s.len() {
        lemma_prefix_len(s.skip(at), CharClass::Digit);
    }
}

/// A number at the head of a text ends inside the text, and is not empty.
pub proof fn lemma_float_len_bound(s: Seq<char>)
    ensures
        float_len(s) matches Some(n) ==> 0 < n <= s.len(),
{
    reveal(float_len);
    reveal(mantissa_len);
    let a: int = if s.len() > 0 && is_sign(s[0]) { 1 } else { 0 };
    lemma_digits_at_bound(s, a);
    lemma_digits_at_bound(s, a + 1);
    let i = digits_at(s, a);
    lemma_digits_at_bound(s, a + i + 1);
    if let Some(m) = mantissa_len(s) {
        lemma_digits_at_bound(s, m as int + 1);
        lemma_digits_at_bound(s, m as int + 2);
    }
}

/// A text whose first character, or whose first character behind a sign, is
/// neither a digit nor a point, does not start with a number.
pub proof fn lemma_number_needs_digit(s: Seq<char>)
    requires
        ({
            let a: int = if s.len() > 0 && is_sign(s[0]) { 1 } else { 0 };
            a < s.len() ==> !CharClass::Digit.spec_contains(s[a]) && s[a] != '.'
        }),
    ensures
        spec_number(s) is Err,
{
    reveal(float_len);
    reveal(mantissa_len);
    let a: int = if s.len() > 0 && is_sign(s[0]) { 1 } else { 0 };
    if a <= s.len() {
        lemma_prefix_len(s.skip(a), CharClass::Digit);
        if a < s.len() {
            assert(s.skip(a)[0] == s[a]);
        }
    }
}

/// The words for the values that are no numbers are rejected, alone or with
/// anything behind them, with a sign before them or without: `nan`, `inf`
/// and `infinity` are no numbers.
pub proof fn lemma_not_a_number_rejected(sign: Seq<char>, rest: Seq<char>)
    requires
        sign.len() == 0 || (sign.len() == 1 && is_sign(sign[0])),
    ensures
        spec_number(sign + "nan"@ + rest) is Err,
        spec_number(sign + "inf"@ + rest) is Err,
        spec_number(sign + "infinity"@ + rest) is Err,
{
    reveal_strlit("nan");
    reveal_strlit("inf");
    reveal_strlit("infinity");
    let a = sign.len() as int;
    assert((sign + "nan"@ + rest)[a] == 'n');
    assert((sign + "inf"@ + rest)[a] == 'i');
    assert((sign + "infinity"@ + rest)[a] == 'i');
    lemma_number_needs_digit(sign + "nan"@ + rest);
    lemma_number_needs_digit(sign + "inf"@ + rest);
    lemma_number_needs_digit(sign + "infinity"@ + rest);
}

/// The digits at a place of a text are the same with a token end behind the text.
proof fn lemma_digits_at_concat(s: Seq<char>, t: Seq<char>, at: int)
    requires
        ends_token(t),
        0 <= at <= s.len(),
    ensures
        digits_at(s + t, at) == digits_at(s, at),
        at + digits_at(s, at) <= s.len(),
{
    assert((s + t).skip(at) =~= s.skip(at) + t);
    lemma_prefix_len_concat(s.skip(at), t, CharClass::Digit);
    lemma_prefix_len(s.skip(at), CharClass::Digit);
}

/// A number is read back from its text: before the end of the input or a
/// space, the text of a number is decoded as that number, and nothing of what
/// follows is taken.
pub proof fn lemma_number_round_trip(text: Seq<char>, t: Seq<char>)
    requires
        is_number(text),
        ends_token(t),
    ensures
        starts_token(text),
        spec_number(text + t) == Ok::<(Seq<char>, Seq<char>), ParseErrorView>((t, text)),
{
    reveal(float_len);
    reveal(mantissa_len);
    let s = text;
    let u = text + t;
    lemma_float_len_bound(s);
    let a: int = if s.len() > 0 && is_sign(s[0]) { 1 } else { 0 };
    assert(u[0] == s[0]);
    let i = digits_at(s, a);
    lemma_digits_at_concat(s, t, a);
    if a < s.len() {
        assert(u[a] == s[a]);
    }
    if a + 1 <= s.len() {
        lemma_digits_at_concat(s, t, a + 1);
    }
    if a + i < s.len() {
        assert(u[a + i] == s[a + i]);
        lemma_digits_at_concat(s, t, a + i + 1);
    } else if a + i < u.len() {
        assert(u[a + i] == t[0]);
    }
    assert(mantissa_len(u) == mantissa_len(s));
    let m = mantissa_len(s)->0 as int;
    if m < s.len() {
        assert(u[m] == s[m]);
        if m + 1 < s.len() {
            assert(u[m + 1] == s[m + 1]);
        } else if m + 1 < u.len() {
            assert(u[m + 1] == t[0]);
        }
        if m + 1 <= s.len() {
            lemma_digits_at_concat(s, t, m + 1);
        }
        if m + 2 <= s.len() {
            lemma_digits_at_concat(s, t, m + 2);
        }
    } else if m < u.len() {
        assert(u[m] == t[0]);
    }
    assert(float_len(u) == float_len(s));
    assert(u.take(s.len() as int) =~= s);
    assert(u.skip(s.len() as int) =~= t);
    if s[0] == ' ' {
        lemma_prefix_len(s.skip(0), CharClass::Digit);
        assert(s.skip(0)[0] == ' ');
    }
}

/// The text of a number can stand on one line.
pub proof fn lemma_number_one_line(text: Seq<char>)
    requires
        is_number(text),
    ensures
        one_line(text),
{
    reveal(float_len);
    reveal(mantissa_len);
    let s = text;
    lemma_float_len_bound(s);
    let a: int = if s.len() > 0 && is_sign(s[0]) { 1 } else { 0 };
    let i = digits_at(s, a) as int;
    lemma_digits_region(s, a);
    lemma_digits_region(s, a + 1);
    lemma_digits_region(s, a + i + 1);
    let m = mantissa_len(s)->0 as int;
    lemma_digits_region(s, m + 1);
    lemma_digits_region(s, m + 2);
    assert forall|j: int| 0 <= j < s.len() implies CharClass::NotLineBreak.spec_contains(
        #[trigger] s[j],
    ) by {
        if j < a {
        } else if i > 0 && j < a + i {
        } else if i > 0 && j == a + i {
        } else if j < m {
        } else if j == m {
        } else if j == m + 1 {
        } else {
        }
    }
}

/// The digits counted at a place are digits.
proof fn lemma_digits_region(s: Seq<char>, at: int)
    ensures
        forall|j: int|
            0 <= at <= j < at + digits_at(s, at) ==> CharClass::Digit.spec_contains(
                #[trigger] s[j],
            ),
        0 <= at <= s.len() ==> at + digits_at(s, at) <= s.len(),
{
    if 0 <= at <= s.len() {
        lemma_prefix_len(s.skip(at), CharClass::Digit);
        assert forall|j: int| at <= j < at + digits_at(s, at) implies CharClass::Digit.spec_contains(
            #[trigger] s[j],
        ) by {
            assert(s[j] == s.skip(at)[j - at]);
        }
    }
}

} // verus!
