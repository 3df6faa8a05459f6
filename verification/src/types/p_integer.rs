//! The GenCAD positive integer: an unsigned integer of 16 bits.

use vstd::prelude::*;
use vstd::string::*;
use crate::error::{agrees, Parsed, ParseError, ParseErrorView, spec_expected, Token};
use crate::lex::{
    CharClass, lemma_prefix_len, lemma_prefix_len_all, one_line, prefix_len, tag, take_while,
};
use crate::types::util::{ends_token, starts_token};

verus! {

/// Whether every character of `s` is a decimal digit.
pub open spec fn all_digits(s: Seq<char>) -> bool {
    forall|i: int| 0 <= i < s.len() ==> CharClass::Digit.spec_contains(#[trigger] s[i])
}

/// The number that the decimal digits `s` spell; 0 for no digits.
pub open spec fn decimal_value(s: Seq<char>) -> nat
    decreases s.len(),
{
    if s.len() == 0 {
        0
    } else {
        (decimal_value(s.drop_last()) * 10 + (s.last() as int - '0' as int)) as nat
    }
}

/// The decimal digits of `n`, without leading zeros.
pub open spec fn decimal_digits(n: nat) -> Seq<char>
    decreases n,
{
    if n < 10 {
        seq![('0' as int + n) as char]
    } else {
        decimal_digits(n / 10).push(('0' as int + n % 10) as char)
    }
}

/// The value of `s` as an unsigned integer of 16 bits: digits only, at least
/// one, and no more than 65535.
pub open spec fn spec_u16(s: Seq<char>) -> Option<u16> {
    if s.len() > 0 && all_digits(s) && decimal_value(s) <= u16::MAX {
        Some(decimal_value(s) as u16)
    } else {
        None
    }
}

/// The positive integer at the head of `s`: an optional `+`, then digits
/// that spell no more than 65535.
pub open spec fn spec_p_integer(s: Seq<char>) -> Parsed<u16> {
    let a: int = if s.len() > 0 && s[0] == '+' { 1 } else { 0 };
    let digits = s.skip(a);
    let n = prefix_len(digits, CharClass::Digit);
    match spec_u16(digits.take(n as int)) {
        Some(v) => Ok((digits.skip(n as int), v)),
        None => spec_expected(Token::PositiveInteger, s),
    }
}

/// Digits that are added to a number do not make it smaller.
pub proof fn lemma_decimal_value_grows(s: Seq<char>, n: int)
    requires
        all_digits(s),
        0 <= n <= s.len(),
    ensures
        decimal_value(s.take(n)) <= decimal_value(s),
    decreases s.len() - n,
{
    if n < s.len() {
        lemma_decimal_value_grows(s, n + 1);
        assert(s.take(n + 1).drop_last() == s.take(n));
        assert(s.take(n + 1).last() == s[n]);
        assert(CharClass::Digit.spec_contains(s[n]));
    } else {
        assert(s.take(n) == s);
    }
}

/// The digits of a number spell that number.
pub proof fn lemma_decimal_digits_value(n: nat)
    ensures
        decimal_digits(n).len() > 0,
        all_digits(decimal_digits(n)),
        decimal_value(decimal_digits(n)) == n,
    decreases n,
{
    if n < 10 {
        let s = decimal_digits(n);
        assert(s.drop_last().len() == 0);
        assert(decimal_value(s.drop_last()) == 0);
        assert(s.last() == ('0' as int + n) as char);
    } else {
        lemma_decimal_digits_value(n / 10);
        let p = decimal_digits(n / 10);
        let s = decimal_digits(n);
        assert(s.drop_last() == p);
        assert(s.last() == ('0' as int + n % 10) as char);
        assert forall|i: int| 0 <= i < s.len() implies CharClass::Digit.spec_contains(
            #[trigger] s[i],
        ) by {
            if i < p.len() {
                assert(s[i] == p[i]);
            }
        }
    }
}

/// Reads `s` as an unsigned integer of 16 bits.
pub fn parse_u16(s: &str) -> (r: Option<u16>)
    ensures
        r == spec_u16(s@),
{
    if s.is_empty() {
        return None;
    }
    let mut acc: u32 = 0;
    for c in it: s.chars()
        invariant
            it.seq() == s@,
            acc <= u16::MAX,
            all_digits(s@.take(it.index())),
            acc == decimal_value(s@.take(it.index())),
    {
        let ghost i = it.index();
        proof {
            assert(s@.take(i + 1).drop_last() == s@.take(i));
            assert(s@.take(i + 1).last() == c);
        }
        if !CharClass::Digit.contains(c) {
            assert(!all_digits(s@)) by {
                assert(s@[i] == c);
            }
            return None;
        }
        let next = acc * 10 + (c as u32 - '0' as u32);
        assert(next == decimal_value(s@.take(i + 1)));
        if next > 65535 {
            proof {
                if all_digits(s@) {
                    lemma_decimal_value_grows(s@, i + 1);
                }
            }
            return None;
        }
        acc = next;
        assert forall|j: int| 0 <= j < s@.take(i + 1).len() implies CharClass::Digit.spec_contains(
            #[trigger] s@.take(i + 1)[j],
        ) by {
            if j < i {
                assert(s@.take(i + 1)[j] == s@.take(i)[j]);
            }
        }
    }
    assert(s@.take(s@.len() as int) == s@);
    Some(acc as u16)
}

/// Appends the decimal digits of `n` to `out`.
pub fn push_decimal(out: &mut String, n: u16)
    ensures
        final(out)@ == old(out)@ + decimal_digits(n as nat),
    decreases n,
{
    if n >= 10 {
        push_decimal(out, n / 10);
    }
    let d: u8 = (n % 10) as u8;
    out.push((48u8 + d) as char);
    assert(final(out)@ == old(out)@ + decimal_digits(n as nat)) by {
        assert('0' as int == 48);
        if n >= 10 {
            assert(final(out)@ =~= old(out)@ + decimal_digits(n as nat));
        } else {
            assert(final(out)@ =~= old(out)@ + decimal_digits(n as nat));
        }
    }
}

/// Parses the positive integer at the head of `s`.
pub fn p_integer(s: &str) -> (r: Result<(&str, u16), ParseError>)
    ensures
        agrees(r, spec_p_integer(s@)),
{
    let digits = match tag("+", s) {
        Ok((rest, _)) => rest,
        Err(_) => s,
    };
    proof {
        reveal_strlit("+");
        lemma_prefix_len(digits@, CharClass::Digit);
        if s@.len() > 0 && s@[0] == '+' {
            assert("+"@.is_prefix_of(s@)) by {
                assert("+"@ =~= s@.subrange(0, 1));
            }
        } else {
            if "+"@.is_prefix_of(s@) {
                assert(s@[0] == "+"@[0]);
            }
            assert(s@.skip(0) == s@);
        }
    }
    match take_while(CharClass::Digit, digits) {
        Ok((rest, taken)) => match parse_u16(taken) {
            Some(v) => Ok((rest, v)),
            None => Err(ParseError::expected(Token::PositiveInteger, s)),
        },
        Err(_) => Err(ParseError::expected(Token::PositiveInteger, s)),
    }
}

/// An unsigned integer of 16 bits is read back from its decimal digits.
pub proof fn lemma_p_integer_round_trip(n: u16, t: Seq<char>)
    requires
        ends_token(t),
    ensures
        starts_token(decimal_digits(n as nat)),
        CharClass::Digit.spec_contains(decimal_digits(n as nat)[0]),
        prefix_len(decimal_digits(n as nat) + t, CharClass::Digit) == decimal_digits(
            n as nat,
        ).len(),
        spec_u16(decimal_digits(n as nat)) == Some(n),
        spec_p_integer(decimal_digits(n as nat) + t) == Ok::<(Seq<char>, u16), ParseErrorView>(
            (t, n),
        ),
{
    let d = decimal_digits(n as nat);
    lemma_decimal_digits_value(n as nat);
    assert(CharClass::Digit.spec_contains(d[0]));
    lemma_prefix_len_all(d, t, CharClass::Digit);
    let s = d + t;
    assert(s[0] == d[0]);
    assert(s.skip(0) =~= s);
}

/// Decimal digits can stand on one line.
pub proof fn lemma_decimal_one_line(n: nat)
    ensures
        one_line(decimal_digits(n)),
{
    lemma_decimal_digits_value(n);
}

} // verus!
