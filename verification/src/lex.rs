//! Lexical layer: character classes and the scanning primitives built on `nom`.
//!
//! Everything above this module reasons about text as `Seq<char>`. The three
//! scanners [`tag`], [`take_while`] and [`recognize_float`] hand the actual
//! slicing to `nom`; their contracts are stated, not proved, and say what
//! `nom` does in terms of [`prefix_len`] and [`float_len`]. The same holds of
//! the contract given to `String::push`.

use vstd::prelude::*;

verus! {

/// The sets of characters the GenCAD grammar distinguishes.
#[derive(Debug, Clone, Copy, PartialEq, Eq, Structural)]
pub enum CharClass {
    /// The space character.
    Space,
    /// `A` to `Z`.
    Upper,
    /// `0` to `9`.
    Digit,
    /// Printable ASCII, space included (0x20 to 0x7E).
    Printable,
    /// Printable ASCII without the space.
    Unquoted,
    /// Printable ASCII without the backslash and the double quote.
    QuotedLiteral,
    /// Carriage return.
    CarriageReturn,
    /// Line feed.
    LineFeed,
    /// Carriage return or line feed.
    LineBreak,
    /// Anything but carriage return and line feed.
    NotLineBreak,
}

/// Whether `c` is printable ASCII.
pub open spec fn is_printable(c: char) -> bool {
    ' ' <= c && c <= '~'
}

impl CharClass {
    /// Membership of `c` in the class.
    pub open spec fn spec_contains(self, c: char) -> bool {
        match self {
            CharClass::Space => c == ' ',
            CharClass::Upper => 'A' <= c && c <= 'Z',
            CharClass::Digit => '0' <= c && c <= '9',
            CharClass::Printable => is_printable(c),
            CharClass::Unquoted => is_printable(c) && c != ' ',
            CharClass::QuotedLiteral => is_printable(c) && c != '\\' && c != '"',
            CharClass::CarriageReturn => c == '\r',
            CharClass::LineFeed => c == '\n',
            CharClass::LineBreak => c == '\r' || c == '\n',
            CharClass::NotLineBreak => c != '\r' && c != '\n',
        }
    }

    /// Membership of `c` in the class.
    pub fn contains(self, c: char) -> (r: bool)
        ensures
            r == self.spec_contains(c),
    {
        match self {
            CharClass::Space => c == ' ',
            CharClass::Upper => 'A' <= c && c <= 'Z',
            CharClass::Digit => '0' <= c && c <= '9',
            CharClass::Printable => ' ' <= c && c <= '~',
            CharClass::Unquoted => ' ' < c && c <= '~',
            CharClass::QuotedLiteral => ' ' <= c && c <= '~' && c != '\\' && c != '"',
            CharClass::CarriageReturn => c == '\r',
            CharClass::LineFeed => c == '\n',
            CharClass::LineBreak => c == '\r' || c == '\n',
            CharClass::NotLineBreak => c != '\r' && c != '\n',
        }
    }
}

/// Length of the longest prefix of `s` whose characters all lie in `class`.
pub open spec fn prefix_len(s: Seq<char>, class: CharClass) -> nat
    decreases s.len(),
{
    if s.len() > 0 && class.spec_contains(s[0]) {
        1 + prefix_len(s.skip(1), class)
    } else {
        0
    }
}

/// Whether `c` is a sign character.
pub open spec fn is_sign(c: char) -> bool {
    c == '+' || c == '-'
}

/// Number of digits at position `at` of `s`.
pub open spec fn digits_at(s: Seq<char>, at: int) -> nat {
    if 0 <= at <= s.len() {
        prefix_len(s.skip(at), CharClass::Digit)
    } else {
        0
    }
}

/// End of the mantissa of a number that starts at the head of `s`: an optional
/// sign, then digits with an optional `.` and optional further digits, or `.`
/// followed by at least one digit. `None` when the head of `s` is neither.
#[verifier::opaque]
pub open spec fn mantissa_len(s: Seq<char>) -> Option<nat> {
    let a: int = if s.len() > 0 && is_sign(s[0]) { 1 } else { 0 };
    let i = digits_at(s, a);
    if i > 0 {
        if a + i < s.len() && s[a + i] == '.' {
            Some((a + i + 1 + digits_at(s, a + i + 1)) as nat)
        } else {
            Some((a + i) as nat)
        }
    } else if a < s.len() && s[a] == '.' && digits_at(s, a + 1) > 0 {
        Some((a + 1 + digits_at(s, a + 1)) as nat)
    } else {
        None
    }
}

/// Length of the number at the head of `s`: a mantissa, and, where an `e` or
/// `E` follows it, an exponent of an optional sign and at least one digit.
/// An `e` that no digit follows makes the whole number invalid, it is not left
/// behind as the start of the remainder.
#[verifier::opaque]
pub open spec fn float_len(s: Seq<char>) -> Option<nat> {
    match mantissa_len(s) {
        None => None,
        Some(m) => {
            let m = m as int;
            if m < s.len() && (s[m] == 'e' || s[m] == 'E') {
                let b: int = if m + 1 < s.len() && is_sign(s[m + 1]) { m + 2 } else { m + 1 };
                let d = digits_at(s, b);
                if d > 0 {
                    Some((b + d) as nat)
                } else {
                    None
                }
            } else {
                Some(m as nat)
            }
        },
    }
}

/// The error of a `nom` parser: recoverable, unrecoverable, or a demand for
/// more input. The library looks only at whether a scanner failed.
#[verifier::external_type_specification]
#[verifier::external_body]
#[verifier::reject_recursive_types(F)]
#[verifier::reject_recursive_types(E)]
pub struct ExNomErr<F, E>(nom::Err<F, E>);

/// What `nom` says of an error: where it happened, and its code.
#[verifier::external_type_specification]
#[verifier::external_body]
#[verifier::reject_recursive_types(I)]
pub struct ExNomError<I>(nom::error::Error<I>);

/// `nom::bytes::complete::tag` on string slices: succeeds exactly when `s`
/// starts with `t`, and then splits `s` right behind it.
#[verifier::external_body]
pub(crate) fn tag<'a>(t: &str, s: &'a str) -> (r: Result<
    (&'a str, &'a str),
    nom::Err<nom::error::Error<&'a str>>,
>)
    ensures
        match r {
            Ok((rest, taken)) => t@.is_prefix_of(s@) && taken@ == t@ && rest@ == s@.skip(
                t@.len() as int,
            ),
            Err(_) => !t@.is_prefix_of(s@),
        },
{
    nom::bytes::complete::tag(t)(s)
}

/// `nom::bytes::complete::take_while` with membership in `class` as its
/// predicate: never fails, and splits `s` behind its longest prefix of
/// characters of the class.
#[verifier::external_body]
pub(crate) fn take_while<'a>(class: CharClass, s: &'a str) -> (r: Result<
    (&'a str, &'a str),
    nom::Err<nom::error::Error<&'a str>>,
>)
    ensures
        match r {
            Ok((rest, taken)) => taken@ == s@.take(prefix_len(s@, class) as int) && rest@
                == s@.skip(prefix_len(s@, class) as int),
            Err(_) => false,
        },
{
    nom::bytes::complete::take_while(|c: char| class.contains(c))(s)
}

/// `nom::number::complete::recognize_float` on string slices: succeeds exactly
/// when a number stands at the head of `s`, and then splits `s` behind it.
#[verifier::external_body]
pub(crate) fn recognize_float<'a>(s: &'a str) -> (r: Result<
    (&'a str, &'a str),
    nom::Err<nom::error::Error<&'a str>>,
>)
    ensures
        match r {
            Ok((rest, taken)) => float_len(s@) matches Some(n) && taken@ == s@.take(n as int) && rest@
                == s@.skip(n as int),
            Err(_) => float_len(s@) is None,
        },
{
    nom::number::complete::recognize_float(s)
}

/// Whether the string slices `a` and `b` hold the same text. They are
/// compared as owned strings.
pub(crate) fn str_eq(a: &str, b: &str) -> (r: bool)
    ensures
        r == (a@ == b@),
{
    a.to_owned() == b.to_owned()
}

/// `String::push` appends the character to the end of the string.
pub assume_specification[ std::string::String::push ](s: &mut std::string::String, c: char)
    ensures
        final(s)@ == old(s)@.push(c),
;

/// The prefix scanned by [`prefix_len`] fits in the sequence, holds only
/// characters of the class, and ends at the end or before a character outside
/// the class.
pub proof fn lemma_prefix_len(s: Seq<char>, class: CharClass)
    ensures
        prefix_len(s, class) <= s.len(),
        forall|i: int| 0 <= i < prefix_len(s, class) ==> class.spec_contains(#[trigger] s[i]),
        prefix_len(s, class) < s.len() ==> !class.spec_contains(s[prefix_len(s, class) as int]),
    decreases s.len(),
{
    if s.len() > 0 && class.spec_contains(s[0]) {
        lemma_prefix_len(s.skip(1), class);
        let n = prefix_len(s.skip(1), class);
        assert forall|i: int| 0 <= i < prefix_len(s, class) implies class.spec_contains(
            #[trigger] s[i],
        ) by {
            if i > 0 {
                assert(s[i] == s.skip(1)[i - 1]);
            }
        }
        if prefix_len(s, class) < s.len() {
            assert(s[prefix_len(s, class) as int] == s.skip(1)[n as int]);
        }
    }
}

/// A prefix of `n` characters of the class that ends at the end of `s` or
/// before a character outside the class is the one [`prefix_len`] finds.
pub proof fn lemma_prefix_len_is(s: Seq<char>, class: CharClass, n: nat)
    requires
        n <= s.len(),
        forall|i: int| 0 <= i < n ==> class.spec_contains(#[trigger] s[i]),
        n < s.len() ==> !class.spec_contains(s[n as int]),
    ensures
        prefix_len(s, class) == n,
    decreases n,
{
    if n > 0 {
        let t = s.skip(1);
        assert forall|i: int| 0 <= i < n - 1 implies class.spec_contains(#[trigger] t[i]) by {
            assert(t[i] == s[i + 1]);
        }
        if n - 1 < t.len() {
            assert(t[n - 1] == s[n as int]);
        }
        lemma_prefix_len_is(t, class, (n - 1) as nat);
    }
}

/// What follows a text does not lengthen its prefix of a class, where it
/// does not begin with a character of the class.
pub proof fn lemma_prefix_len_concat(a: Seq<char>, t: Seq<char>, class: CharClass)
    requires
        t.len() == 0 || !class.spec_contains(t[0]),
    ensures
        prefix_len(a + t, class) == prefix_len(a, class),
{
    let n = prefix_len(a, class);
    lemma_prefix_len(a, class);
    assert forall|i: int| 0 <= i < n implies class.spec_contains(#[trigger] (a + t)[i]) by {
        assert((a + t)[i] == a[i]);
    }
    if n < (a + t).len() {
        if n < a.len() {
            assert((a + t)[n as int] == a[n as int]);
        } else {
            assert((a + t)[n as int] == t[0]);
        }
    }
    lemma_prefix_len_is(a + t, class, n);
}

/// The prefix of a class of a text made of such characters and a text that
/// does not begin with one is the first text.
pub proof fn lemma_prefix_len_all(a: Seq<char>, t: Seq<char>, class: CharClass)
    requires
        forall|i: int| 0 <= i < a.len() ==> class.spec_contains(#[trigger] a[i]),
        t.len() == 0 || !class.spec_contains(t[0]),
    ensures
        prefix_len(a + t, class) == a.len(),
        (a + t).take(a.len() as int) == a,
        (a + t).skip(a.len() as int) == t,
{
    assert forall|i: int| 0 <= i < a.len() implies class.spec_contains(#[trigger] (a + t)[i]) by {
        assert((a + t)[i] == a[i]);
    }
    if a.len() < (a + t).len() {
        assert((a + t)[a.len() as int] == t[0]);
    }
    lemma_prefix_len_is(a + t, class, a.len());
    assert((a + t).take(a.len() as int) =~= a);
    assert((a + t).skip(a.len() as int) =~= t);
}

/// Whether `s` can stand on one line: it holds no carriage return and no
/// line feed.
pub open spec fn one_line(s: Seq<char>) -> bool {
    forall|i: int| 0 <= i < s.len() ==> CharClass::NotLineBreak.spec_contains(#[trigger] s[i])
}

/// Two texts that can stand on one line can stand on it one behind the other.
pub proof fn lemma_one_line_concat(a: Seq<char>, b: Seq<char>)
    requires
        one_line(a),
        one_line(b),
    ensures
        one_line(a + b),
{
    assert forall|i: int| 0 <= i < (a + b).len() implies CharClass::NotLineBreak.spec_contains(
        #[trigger] (a + b)[i],
    ) by {
        if i < a.len() {
            assert((a + b)[i] == a[i]);
        } else {
            assert((a + b)[i] == b[i - a.len()]);
        }
    }
}

} // verus!
