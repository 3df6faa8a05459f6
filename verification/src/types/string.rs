//! The GenCAD string, quoted or unquoted.
//!
//! A quoted string stands between two double quotes; inside, a backslash
//! before a double quote gives the double quote, and any other backslash is
//! the backslash itself. An unquoted string is a run of printable characters
//! without spaces that does not begin with a double quote. A part name is a
//! string that, where it is unquoted, runs on over spaces to the end of the
//! printable text: files in the field write device and part names with
//! spaces in them and no quotes around them.

use vstd::prelude::*;
use vstd::string::*;
use crate::error::{agrees, Parsed, ParseError, ParseErrorView, spec_expected, Token};
use crate::lex::{
    CharClass, lemma_prefix_len, lemma_prefix_len_all, one_line, prefix_len, take_while,
};
use crate::serialization::ToGencadString;
use crate::types::util::{eat, ends_token, lemma_tag_one, starts_token};

verus! {

/// A piece of the inside of a quoted string.
#[derive(Debug, Clone, Copy, PartialEq, Eq)]
pub enum QuotedStringFragment<'a> {
    /// A run of characters that stand for themselves.
    Literal(&'a str),
    /// The character that a backslash sequence stands for.
    Char(char),
}

/// The mathematical content of a [`QuotedStringFragment`].
pub ghost enum FragmentView {
    Literal(Seq<char>),
    Char(char),
}

impl FragmentView {
    /// The characters the fragment contributes to the string.
    pub open spec fn text(self) -> Seq<char> {
        match self {
            FragmentView::Literal(s) => s,
            FragmentView::Char(c) => seq![c],
        }
    }
}

impl<'a> DeepView for QuotedStringFragment<'a> {
    type V = FragmentView;

    open spec fn deep_view(&self) -> FragmentView {
        match *self {
            QuotedStringFragment::Literal(s) => FragmentView::Literal(s@),
            QuotedStringFragment::Char(c) => FragmentView::Char(c),
        }
    }
}

/// Whether `c` may stand in a string.
pub open spec fn is_valid_char_spec(c: char) -> bool {
    CharClass::Printable.spec_contains(c)
}

/// Whether `c` may stand in a string.
pub fn is_valid_char(c: char) -> (r: bool)
    ensures
        r == is_valid_char_spec(c),
{
    CharClass::Printable.contains(c)
}

/// Whether `c` stands for itself inside a quoted string.
pub fn is_valid_char_but_not_backslash_or_quote(c: char) -> (r: bool)
    ensures
        r == CharClass::QuotedLiteral.spec_contains(c),
{
    c != '\\' && c != '"' && is_valid_char(c)
}

/// Whether `c` may stand in an unquoted string.
pub fn is_valid_char_but_not_space(c: char) -> (r: bool)
    ensures
        r == CharClass::Unquoted.spec_contains(c),
{
    c != ' ' && is_valid_char(c)
}

/// The backslash sequence at the head of `s`.
pub open spec fn spec_backslash_sequence(s: Seq<char>) -> Parsed<char> {
    if s.len() > 1 && s[0] == '\\' && s[1] == '"' {
        Ok((s.skip(2), '"'))
    } else if s.len() > 0 && s[0] == '\\' {
        Ok((s.skip(1), '\\'))
    } else {
        spec_expected(Token::Text, s)
    }
}

/// The fragment at the head of the inside of a quoted string.
pub open spec fn spec_fragment(s: Seq<char>) -> Parsed<FragmentView> {
    match spec_backslash_sequence(s) {
        Ok((rest, c)) => Ok((rest, FragmentView::Char(c))),
        Err(_) => {
            let n = prefix_len(s, CharClass::QuotedLiteral);
            if n > 0 {
                Ok((s.skip(n as int), FragmentView::Literal(s.take(n as int))))
            } else {
                spec_expected(Token::Text, s)
            }
        },
    }
}

/// The characters that the fragments at the head of `s` stand for, and what
/// is left of `s` behind the last of them.
pub open spec fn spec_fragments(s: Seq<char>) -> (Seq<char>, Seq<char>)
    decreases s.len(),
{
    match spec_fragment(s) {
        Ok((rest, fragment)) => {
            if rest.len() < s.len() {
                let (text, end) = spec_fragments(rest);
                (fragment.text() + text, end)
            } else {
                (Seq::empty(), s)
            }
        },
        Err(_) => (Seq::empty(), s),
    }
}

/// The quoted string at the head of `s`.
pub open spec fn spec_quoted_string(s: Seq<char>) -> Parsed<Seq<char>> {
    if s.len() > 0 && s[0] == '"' {
        let (text, end) = spec_fragments(s.skip(1));
        if end.len() > 0 && end[0] == '"' {
            Ok((end.skip(1), text))
        } else {
            spec_expected(Token::Text, s)
        }
    } else {
        spec_expected(Token::Text, s)
    }
}

/// The unquoted string at the head of `s`. It may be empty.
pub open spec fn spec_unquoted_string(s: Seq<char>) -> Parsed<Seq<char>> {
    if s.len() > 0 && s[0] == '"' {
        spec_expected(Token::Text, s)
    } else {
        let n = prefix_len(s, CharClass::Unquoted);
        Ok((s.skip(n as int), s.take(n as int)))
    }
}

/// The string at the head of `s`: unquoted unless `s` begins with a double
/// quote.
#[verifier::opaque]
pub open spec fn spec_string(s: Seq<char>) -> Parsed<Seq<char>> {
    if s.len() > 0 && s[0] == '"' {
        spec_quoted_string(s)
    } else {
        spec_unquoted_string(s)
    }
}

/// The part name at the head of `s`: a quoted string, or all the printable
/// characters at the head of `s`, spaces included.
#[verifier::opaque]
pub open spec fn spec_part_name(s: Seq<char>) -> Parsed<Seq<char>> {
    if s.len() > 0 && s[0] == '"' {
        spec_quoted_string(s)
    } else {
        let n = prefix_len(s, CharClass::Printable);
        Ok((s.skip(n as int), s.take(n as int)))
    }
}

/// A fragment is never empty.
pub proof fn lemma_fragment_consumes(s: Seq<char>)
    ensures
        spec_fragment(s) matches Ok((rest, _)) ==> rest.len() < s.len(),
{
    lemma_prefix_len(s, CharClass::QuotedLiteral);
}

/// Parses the backslash sequence at the head of `s`.
pub fn backslash_sequence(s: &str) -> (r: Result<(&str, char), ParseError>)
    ensures
        agrees(r, spec_backslash_sequence(s@)),
{
    proof {
        reveal_strlit("\\\"");
        reveal_strlit("\\");
        lemma_tag_one("\\"@, s@);
        if s@.len() > 1 && s@[0] == '\\' && s@[1] == '"' {
            assert("\\\""@ =~= s@.subrange(0, 2));
        }
        if "\\\""@.is_prefix_of(s@) {
            assert(s@[0] == "\\\""@[0]);
            assert(s@[1] == "\\\""@[1]);
        }
    }
    match eat("\\\"", s) {
        Some(rest) => Ok((rest, '"')),
        None => match eat("\\", s) {
            Some(rest) => Ok((rest, '\\')),
            None => Err(ParseError::expected(Token::Text, s)),
        },
    }
}

/// Parses the fragment at the head of the inside of a quoted string.
pub fn quoted_string_inner_fragment<'a>(s: &'a str) -> (r: Result<
    (&'a str, QuotedStringFragment<'a>),
    ParseError,
>)
    ensures
        agrees(r, spec_fragment(s@)),
{
    match backslash_sequence(s) {
        Ok((rest, c)) => Ok((rest, QuotedStringFragment::Char(c))),
        Err(_) => match take_while(CharClass::QuotedLiteral, s) {
            Ok((rest, taken)) => {
                proof {
                    lemma_prefix_len(s@, CharClass::QuotedLiteral);
                }
                if taken.is_empty() {
                    Err(ParseError::expected(Token::Text, s))
                } else {
                    Ok((rest, QuotedStringFragment::Literal(taken)))
                }
            },
            Err(_) => Err(ParseError::expected(Token::Text, s)),
        },
    }
}

/// Parses the quoted string at the head of `s`.
pub fn quoted_string(s: &str) -> (r: Result<(&str, String), ParseError>)
    ensures
        agrees(r, spec_quoted_string(s@)),
{
    proof {
        reveal_strlit("\"");
        lemma_tag_one("\""@, s@);
    }
    let inside = match eat("\"", s) {
        Some(rest) => rest,
        None => {
            return Err(ParseError::expected(Token::Text, s));
        },
    };
    let mut text = String::new();
    let mut cur = inside;
    loop
        invariant
            spec_fragments(inside@) == (
                text@ + spec_fragments(cur@).0,
                spec_fragments(cur@).1,
            ),
        ensures
            spec_fragments(inside@) == (text@, cur@),
        decreases cur@.len(),
    {
        proof {
            lemma_fragment_consumes(cur@);
        }
        match quoted_string_inner_fragment(cur) {
            Ok((rest, fragment)) => {
                let ghost before = text@;
                match fragment {
                    QuotedStringFragment::Literal(l) => {
                        text.append(l);
                    },
                    QuotedStringFragment::Char(c) => {
                        text.push(c);
                    },
                }
                proof {
                    let f = fragment.deep_view();
                    assert(text@ =~= before + f.text());
                    assert(text@ + spec_fragments(rest@).0 =~= before + (f.text()
                        + spec_fragments(rest@).0));
                }
                cur = rest;
            },
            Err(_) => {
                assert(text@ + Seq::<char>::empty() =~= text@);
                break ;
            },
        }
    }
    proof {
        lemma_tag_one("\""@, cur@);
    }
    match eat("\"", cur) {
        Some(rest) => Ok((rest, text)),
        None => Err(ParseError::expected(Token::Text, s)),
    }
}

/// Parses the unquoted string at the head of `s`.
pub fn unquoted_string(s: &str) -> (r: Result<(&str, &str), ParseError>)
    ensures
        agrees(r, spec_unquoted_string(s@)),
{
    proof {
        reveal_strlit("\"");
        lemma_tag_one("\""@, s@);
    }
    match eat("\"", s) {
        Some(_) => Err(ParseError::expected(Token::Text, s)),
        None => match take_while(CharClass::Unquoted, s) {
            Ok((rest, taken)) => Ok((rest, taken)),
            Err(_) => Err(ParseError::expected(Token::Text, s)),
        },
    }
}

/// Parses the string at the head of `s`.
pub fn string(s: &str) -> (r: Result<(&str, String), ParseError>)
    ensures
        agrees(r, spec_string(s@)),
{
    reveal(spec_string);
    match unquoted_string(s) {
        Ok((rest, taken)) => Ok((rest, String::from_str(taken))),
        Err(_) => quoted_string(s),
    }
}

/// Parses the part name at the head of `s`.
pub fn part_name(s: &str) -> (r: Result<(&str, String), ParseError>)
    ensures
        agrees(r, spec_part_name(s@)),
{
    reveal(spec_part_name);
    proof {
        reveal_strlit("\"");
        lemma_tag_one("\""@, s@);
    }
    match eat("\"", s) {
        Some(_) => quoted_string(s),
        None => match take_while(CharClass::Printable, s) {
            Ok((rest, taken)) => Ok((rest, String::from_str(taken))),
            Err(_) => Err(ParseError::expected(Token::Text, s)),
        },
    }
}

/// Whether `s` can be written without quotes: it is not empty, does not
/// begin with a double quote, and holds printable characters without spaces
/// only.
pub open spec fn is_plain(s: Seq<char>) -> bool {
    &&& s.len() > 0
    &&& s[0] != '"'
    &&& forall|i: int| 0 <= i < s.len() ==> CharClass::Unquoted.spec_contains(#[trigger] s[i])
}

/// `s` with a backslash put before each double quote.
pub open spec fn escaped(s: Seq<char>) -> Seq<char>
    decreases s.len(),
{
    if s.len() == 0 {
        Seq::empty()
    } else if s.last() == '"' {
        escaped(s.drop_last()).push('\\').push('"')
    } else {
        escaped(s.drop_last()).push(s.last())
    }
}

/// The text of a string: the string itself where it can be written without
/// quotes, else its escaped form between double quotes.
#[verifier::opaque]
pub open spec fn string_text(s: Seq<char>) -> Seq<char> {
    if is_plain(s) {
        s
    } else {
        seq!['"'] + escaped(s) + seq!['"']
    }
}

/// Decides whether `s` can be written without quotes.
pub fn check_plain(s: &str) -> (r: bool)
    ensures
        r == is_plain(s@),
{
    let mut plain = true;
    let mut first = true;
    for c in it: s.chars()
        invariant
            it.seq() == s@,
            first == (it.index() == 0),
            plain == ((it.index() > 0 ==> s@[0] != '"') && forall|i: int|
                0 <= i < it.index() ==> CharClass::Unquoted.spec_contains(#[trigger] s@[i])),
    {
        if !is_valid_char_but_not_space(c) || (first && c == '"') {
            plain = false;
        }
        first = false;
    }
    plain && !first
}

impl ToGencadString for String {
    open spec fn gencad(&self) -> Seq<char> {
        string_text(self@)
    }

    fn to_gencad_string(&self) -> (r: String) {
        reveal(string_text);
        let s = self.as_str();
        if check_plain(s) {
            return self.clone();
        }
        let mut out = String::new();
        out.push('"');
        for c in it: s.chars()
            invariant
                it.seq() == s@,
                out@ == seq!['"'] + escaped(s@.take(it.index())),
        {
            let ghost i = it.index();
            proof {
                assert(s@.take(i + 1).drop_last() == s@.take(i));
                assert(s@.take(i + 1).last() == c);
            }
            if c == '"' {
                out.push('\\');
            }
            out.push(c);
            assert(out@ =~= seq!['"'] + escaped(s@.take(i + 1)));
        }
        assert(s@.take(s@.len() as int) == s@);
        out.push('"');
        assert(out@ =~= seq!['"'] + escaped(s@) + seq!['"']);
        out
    }
}

/// Whether every character of `s` is printable.
pub open spec fn all_printable(s: Seq<char>) -> bool {
    forall|i: int| 0 <= i < s.len() ==> CharClass::Printable.spec_contains(#[trigger] s[i])
}

/// Whether the string `s` can be written and read back: its characters are
/// printable, and where it has to be quoted it does not end with a backslash,
/// which would take the closing quote for its own.
pub open spec fn is_writable(s: Seq<char>) -> bool {
    all_printable(s) && (is_plain(s) || s.len() == 0 || s.last() != '\\')
}

/// The inside of a quoted string read character by character: what it stands
/// for, and what is left at the first character that cannot be inside.
pub open spec fn unescaped(u: Seq<char>) -> (Seq<char>, Seq<char>)
    decreases u.len(),
{
    if u.len() == 0 {
        (Seq::empty(), u)
    } else if u[0] == '\\' {
        if u.len() > 1 && u[1] == '"' {
            let (text, end) = unescaped(u.skip(2));
            (seq!['"'] + text, end)
        } else {
            let (text, end) = unescaped(u.skip(1));
            (seq!['\\'] + text, end)
        }
    } else if CharClass::QuotedLiteral.spec_contains(u[0]) {
        let (text, end) = unescaped(u.skip(1));
        (seq![u[0]] + text, end)
    } else {
        (Seq::empty(), u)
    }
}

/// A run of characters that stand for themselves is read as itself.
proof fn lemma_unescaped_run(u: Seq<char>, k: int)
    requires
        0 <= k <= u.len(),
        forall|i: int| 0 <= i < k ==> CharClass::QuotedLiteral.spec_contains(#[trigger] u[i]),
    ensures
        unescaped(u) == (u.take(k) + unescaped(u.skip(k)).0, unescaped(u.skip(k)).1),
    decreases k,
{
    if k == 0 {
        assert(u.skip(0) =~= u);
        assert(u.take(0) + unescaped(u).0 =~= unescaped(u).0);
    } else {
        let v = u.skip(1);
        assert forall|i: int| 0 <= i < k - 1 implies CharClass::QuotedLiteral.spec_contains(
            #[trigger] v[i],
        ) by {
            assert(v[i] == u[i + 1]);
        }
        lemma_unescaped_run(v, k - 1);
        assert(v.skip(k - 1) =~= u.skip(k));
        assert(CharClass::QuotedLiteral.spec_contains(u[0]));
        assert(seq![u[0]] + (v.take(k - 1) + unescaped(u.skip(k)).0) =~= u.take(k) + unescaped(
            u.skip(k),
        ).0);
    }
}

/// Reading fragment by fragment and reading character by character give the same.
proof fn lemma_fragments_unescaped(u: Seq<char>)
    ensures
        spec_fragments(u) == unescaped(u),
    decreases u.len(),
{
    lemma_fragment_consumes(u);
    match spec_fragment(u) {
        Ok((rest, fragment)) => {
            lemma_fragments_unescaped(rest);
            match spec_backslash_sequence(u) {
                Ok(_) => {},
                Err(_) => {
                    let n = prefix_len(u, CharClass::QuotedLiteral);
                    lemma_prefix_len(u, CharClass::QuotedLiteral);
                    lemma_unescaped_run(u, n as int);
                },
            }
        },
        Err(_) => {
            lemma_prefix_len(u, CharClass::QuotedLiteral);
        },
    }
}

/// Escaping goes piece by piece.
proof fn lemma_escaped_concat(a: Seq<char>, b: Seq<char>)
    ensures
        escaped(a + b) == escaped(a) + escaped(b),
    decreases b.len(),
{
    if b.len() == 0 {
        assert(a + b =~= a);
        assert(escaped(a) + escaped(b) =~= escaped(a));
    } else {
        lemma_escaped_concat(a, b.drop_last());
        assert((a + b).drop_last() =~= a + b.drop_last());
        assert((a + b).last() == b.last());
        if b.last() == '"' {
            assert(escaped(a + b) =~= escaped(a) + escaped(b));
        } else {
            assert(escaped(a + b) =~= escaped(a) + escaped(b));
        }
    }
}

/// The escaped form of one character.
proof fn lemma_escaped_one(c: char)
    ensures
        escaped(seq![c]) == if c == '"' {
            seq!['\\', '"']
        } else {
            seq![c]
        },
{
    reveal_with_fuel(escaped, 2);
    assert(seq![c].drop_last() =~= Seq::<char>::empty());
    if c == '"' {
        assert(escaped(seq![c]) =~= seq!['\\', '"']);
    } else {
        assert(escaped(seq![c]) =~= seq![c]);
    }
}

/// The escaped form of a string, the closing quote and what follows are read
/// back as the string, up to the closing quote.
proof fn lemma_unescaped_escaped(s: Seq<char>, t: Seq<char>)
    requires
        all_printable(s),
        s.len() == 0 || s.last() != '\\',
    ensures
        unescaped(escaped(s) + seq!['"'] + t) == (s, seq!['"'] + t),
    decreases s.len(),
{
    let close = seq!['"'] + t;
    if s.len() == 0 {
        assert(escaped(s) + seq!['"'] + t =~= close);
        assert(close[0] == '"');
    } else {
        let c = s[0];
        let r = s.skip(1);
        assert(s =~= seq![c] + r);
        lemma_escaped_concat(seq![c], r);
        lemma_escaped_one(c);
        assert(all_printable(r)) by {
            assert forall|i: int| 0 <= i < r.len() implies CharClass::Printable.spec_contains(
                #[trigger] r[i],
            ) by {
                assert(r[i] == s[i + 1]);
            }
        }
        if r.len() > 0 {
            assert(r.last() == s.last());
        }
        lemma_unescaped_escaped(r, t);
        let w = escaped(r) + seq!['"'] + t;
        let u = escaped(s) + seq!['"'] + t;
        assert(CharClass::Printable.spec_contains(s[0]));
        if c == '"' {
            assert(u =~= seq!['\\', '"'] + w);
            assert(u.skip(2) =~= w);
            assert(seq!['"'] + r =~= s);
        } else if c == '\\' {
            assert(u =~= seq!['\\'] + w);
            assert(u.skip(1) =~= w);
            assert(r.len() > 0);
            let d = r[0];
            assert(r =~= seq![d] + r.skip(1));
            lemma_escaped_concat(seq![d], r.skip(1));
            lemma_escaped_one(d);
            assert(w[0] == escaped(r)[0]);
            assert(u[1] == w[0]);
            assert(u[1] != '"');
            assert(seq!['\\'] + r =~= s);
        } else {
            assert(u =~= seq![c] + w);
            assert(u.skip(1) =~= w);
            assert(seq![c] + r =~= s);
        }
    }
}

/// A string is read back from its text: before the end of the input or a
/// space, the text of a string that can be written is decoded as that
/// string, and nothing of what follows is taken.
pub proof fn lemma_string_round_trip(s: Seq<char>, t: Seq<char>)
    requires
        is_writable(s),
        ends_token(t),
    ensures
        starts_token(string_text(s)),
        spec_string(string_text(s) + t) == Ok::<(Seq<char>, Seq<char>), ParseErrorView>((t, s)),
{
    reveal(string_text);
    reveal(spec_string);
    if is_plain(s) {
        lemma_prefix_len_all(s, t, CharClass::Unquoted);
        assert((s + t)[0] == s[0]);
        assert(CharClass::Unquoted.spec_contains(s[0]));
    } else {
        let u = string_text(s) + t;
        assert(u[0] == '"');
        assert(u.skip(1) =~= escaped(s) + seq!['"'] + t);
        lemma_fragments_unescaped(u.skip(1));
        lemma_unescaped_escaped(s, t);
        let end = seq!['"'] + t;
        assert(end[0] == '"');
        assert(end.skip(1) =~= t);
    }
}

/// A part name is read back from its text where nothing follows it.
pub proof fn lemma_part_name_round_trip(s: Seq<char>)
    requires
        is_writable(s),
    ensures
        spec_part_name(string_text(s)) == Ok::<(Seq<char>, Seq<char>), ParseErrorView>(
            (Seq::empty(), s),
        ),
{
    reveal(string_text);
    reveal(spec_part_name);
    let t = Seq::<char>::empty();
    if is_plain(s) {
        assert(all_printable(s));
        lemma_prefix_len_all(s, t, CharClass::Printable);
        assert(s + t =~= s);
    } else {
        let u = string_text(s);
        assert(u[0] == '"');
        assert(u.skip(1) =~= escaped(s) + seq!['"'] + t);
        lemma_fragments_unescaped(u.skip(1));
        lemma_unescaped_escaped(s, t);
        let end = seq!['"'] + t;
        assert(end[0] == '"');
        assert(end.skip(1) =~= t);
    }
}

/// The escaped form of printable characters is printable.
proof fn lemma_escaped_printable(s: Seq<char>)
    requires
        all_printable(s),
    ensures
        all_printable(escaped(s)),
    decreases s.len(),
{
    if s.len() > 0 {
        let r = s.drop_last();
        assert(all_printable(r)) by {
            assert forall|i: int| 0 <= i < r.len() implies CharClass::Printable.spec_contains(
                #[trigger] r[i],
            ) by {
                assert(r[i] == s[i]);
            }
        }
        lemma_escaped_printable(r);
        assert(CharClass::Printable.spec_contains(s[s.len() - 1]));
    }
}

/// The text of a string that can be written can stand on one line.
pub proof fn lemma_string_one_line(s: Seq<char>)
    requires
        is_writable(s),
    ensures
        one_line(string_text(s)),
{
    reveal(string_text);
    lemma_escaped_printable(s);
    if !is_plain(s) {
        let e = escaped(s);
        let u = seq!['"'] + e + seq!['"'];
        assert forall|i: int| 0 <= i < u.len() implies CharClass::NotLineBreak.spec_contains(
            #[trigger] u[i],
        ) by {
            if 0 < i <= e.len() {
                assert(u[i] == e[i - 1]);
                assert(CharClass::Printable.spec_contains(e[i - 1]));
            }
        }
    }
}

} // verus!
