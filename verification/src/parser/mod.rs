//! Splitting of a file into sections and lines.
//!
//! A section opens with `$NAME` on a line of its own and closes with
//! `$ENDNAME`. Each line between the two holds a keyword of upper case
//! letters, one space, and the parameter: all that follows up to the end of
//! the line. Lines end with a line feed, which carriage returns may precede;
//! blank lines that follow are skipped.

pub mod file;
pub mod keyword;
pub mod written;

pub use file::{ParsedGencadFile, ParsedSection, ParsedSectionView};

use vstd::prelude::*;
use crate::error::{agrees, agrees_whole, Parsed, ParseError, ParseErrorView, spec_expected, Token};
use crate::lex::{CharClass, lemma_prefix_len, prefix_len, str_eq, take_while};
use crate::types::util::{eat, spec_tag};

verus! {

/// A keyword/parameter pair.
#[derive(Debug, Clone, Copy, PartialEq, Eq)]
pub struct KeywordParam<'a> {
    /// The keyword that determines how to interpret the parameter.
    pub keyword: &'a str,
    /// The parameter associated with the keyword.
    pub parameter: &'a str,
}

/// The mathematical content of a [`KeywordParam`].
pub ghost struct KeywordParamView {
    pub keyword: Seq<char>,
    pub parameter: Seq<char>,
}

impl<'a> DeepView for KeywordParam<'a> {
    type V = KeywordParamView;

    open spec fn deep_view(&self) -> KeywordParamView {
        KeywordParamView { keyword: self.keyword@, parameter: self.parameter@ }
    }
}

/// A section in the GenCAD file, not yet interpreted.
#[derive(Debug, Clone, PartialEq, Eq)]
pub struct Section<'a> {
    /// The name of the section.
    pub name: &'a str,
    /// List of parameters in the section.
    pub parameters: Vec<KeywordParam<'a>>,
}

/// The mathematical content of a [`Section`].
pub ghost struct SectionView {
    pub name: Seq<char>,
    pub parameters: Seq<KeywordParamView>,
}

impl<'a> DeepView for Section<'a> {
    type V = SectionView;

    open spec fn deep_view(&self) -> SectionView {
        SectionView { name: self.name@, parameters: self.parameters.deep_view() }
    }
}

/// The end of a line at the head of `s`: any carriage returns, at least one
/// line feed, and the carriage returns and line feeds that follow.
pub open spec fn spec_take_newlines(s: Seq<char>) -> Parsed<()> {
    let s1 = s.skip(prefix_len(s, CharClass::CarriageReturn) as int);
    let feeds = prefix_len(s1, CharClass::LineFeed);
    if feeds == 0 {
        spec_expected(Token::LineBreak, s)
    } else {
        let s2 = s1.skip(feeds as int);
        Ok((s2.skip(prefix_len(s2, CharClass::LineBreak) as int), ()))
    }
}

/// The keyword at the head of `s`: one or more upper case letters.
pub open spec fn spec_keyword(s: Seq<char>) -> Parsed<Seq<char>> {
    let n = prefix_len(s, CharClass::Upper);
    if n == 0 {
        spec_expected(Token::Keyword, s)
    } else {
        Ok((s.skip(n as int), s.take(n as int)))
    }
}

/// The name behind the mark `mark` at the head of `s`, on a line of its own.
pub open spec fn spec_section_mark(mark: Seq<char>, token: Token, s: Seq<char>) -> Parsed<
    Seq<char>,
> {
    match spec_tag(mark, s) {
        None => spec_expected(token, s),
        Some(s1) => match spec_keyword(s1) {
            Err(e) => Err(e),
            Ok((s2, name)) => match spec_take_newlines(s2) {
                Err(e) => Err(e),
                Ok((s3, _)) => Ok((s3, name)),
            },
        },
    }
}

/// The opening line of a section at the head of `s`.
pub open spec fn spec_section_start(s: Seq<char>) -> Parsed<Seq<char>> {
    spec_section_mark("$"@, Token::SectionStart, s)
}

/// The closing line of a section at the head of `s`.
pub open spec fn spec_section_end(s: Seq<char>) -> Parsed<Seq<char>> {
    spec_section_mark("$END"@, Token::SectionEnd, s)
}

/// The line at the head of `s`: keyword, one space, parameter, end of line.
pub open spec fn spec_keyword_param(s: Seq<char>) -> Parsed<KeywordParamView> {
    match spec_keyword(s) {
        Err(e) => Err(e),
        Ok((s1, keyword)) => match spec_tag(" "@, s1) {
            None => spec_expected(Token::Separator, s1),
            Some(s2) => {
                let n = prefix_len(s2, CharClass::NotLineBreak);
                match spec_take_newlines(s2.skip(n as int)) {
                    Err(e) => Err(e),
                    Ok((s4, _)) => Ok(
                        (s4, KeywordParamView { keyword, parameter: s2.take(n as int) }),
                    ),
                }
            },
        },
    }
}

/// The lines at the head of `s`, up to the first text that is no line, and
/// what is left of `s` behind them.
pub open spec fn spec_lines(s: Seq<char>) -> (Seq<KeywordParamView>, Seq<char>)
    decreases s.len(),
{
    match spec_keyword_param(s) {
        Ok((rest, line)) => {
            if rest.len() < s.len() {
                let (lines, end) = spec_lines(rest);
                (seq![line] + lines, end)
            } else {
                (Seq::empty(), s)
            }
        },
        Err(_) => (Seq::empty(), s),
    }
}

/// The section at the head of `s`: opening line, lines, and the closing line
/// under the same name.
#[verifier::opaque]
pub open spec fn spec_section(s: Seq<char>) -> Parsed<SectionView> {
    match spec_section_start(s) {
        Err(e) => Err(e),
        Ok((s1, name)) => {
            let (parameters, s2) = spec_lines(s1);
            match spec_section_end(s2) {
                Err(e) => Err(e),
                Ok((s3, closed)) => {
                    if closed == name {
                        Ok((s3, SectionView { name, parameters }))
                    } else {
                        Err(ParseErrorView::MismatchedEnd { opened: name, closed })
                    }
                },
            }
        },
    }
}

/// The sections that follow the sections `found` in `s`, up to the end of
/// `s`. Text that is no section is an error.
pub open spec fn spec_more_sections(found: Seq<SectionView>, s: Seq<char>) -> Result<
    Seq<SectionView>,
    ParseErrorView,
>
    decreases s.len(),
{
    if s.len() == 0 {
        Ok(found)
    } else {
        match spec_section(s) {
            Ok((rest, section)) => {
                if rest.len() < s.len() {
                    spec_more_sections(found.push(section), rest)
                } else {
                    Err(ParseErrorView::TrailingData { rest: s })
                }
            },
            Err(_) => Err(ParseErrorView::TrailingData { rest: s }),
        }
    }
}

/// The sections of the file `s`: at least one, with nothing behind the last.
pub open spec fn spec_sections(s: Seq<char>) -> Result<Seq<SectionView>, ParseErrorView> {
    match spec_section(s) {
        Err(e) => Err(e),
        Ok((rest, section)) => spec_more_sections(seq![section], rest),
    }
}

/// A keyword is not empty and ends inside the text.
pub proof fn lemma_keyword_consumes(s: Seq<char>)
    ensures
        spec_keyword(s) matches Ok((rest, k)) ==> rest.len() < s.len() && k.len() > 0,
{
    lemma_prefix_len(s, CharClass::Upper);
}

/// The end of a line does not make the text longer.
pub proof fn lemma_newlines_consume(s: Seq<char>)
    ensures
        spec_take_newlines(s) matches Ok((rest, _)) ==> rest.len() < s.len(),
{
    lemma_prefix_len(s, CharClass::CarriageReturn);
    let s1 = s.skip(prefix_len(s, CharClass::CarriageReturn) as int);
    lemma_prefix_len(s1, CharClass::LineFeed);
    let feeds = prefix_len(s1, CharClass::LineFeed);
    if feeds > 0 {
        let s2 = s1.skip(feeds as int);
        lemma_prefix_len(s2, CharClass::LineBreak);
    }
}

/// A line is not empty.
pub proof fn lemma_keyword_param_consumes(s: Seq<char>)
    ensures
        spec_keyword_param(s) matches Ok((rest, _)) ==> rest.len() < s.len(),
{
    lemma_keyword_consumes(s);
    if let Ok((s1, _)) = spec_keyword(s) {
        if let Some(s2) = spec_tag(" "@, s1) {
            lemma_prefix_len(s2, CharClass::NotLineBreak);
            lemma_newlines_consume(s2.skip(prefix_len(s2, CharClass::NotLineBreak) as int));
        }
    }
}

/// The lines at the head of a text end inside the text.
pub proof fn lemma_lines_consume(s: Seq<char>)
    ensures
        spec_lines(s).1.len() <= s.len(),
    decreases s.len(),
{
    if let Ok((rest, _)) = spec_keyword_param(s) {
        if rest.len() < s.len() {
            lemma_lines_consume(rest);
        }
    }
}

/// A section is not empty.
pub proof fn lemma_section_consumes(s: Seq<char>)
    ensures
        spec_section(s) matches Ok((rest, _)) ==> rest.len() < s.len(),
{
    reveal(spec_section);
    if let Ok((s1, _)) = spec_section_start(s) {
        let s0 = spec_tag("$"@, s)->0;
        lemma_keyword_consumes(s0);
        lemma_newlines_consume(spec_keyword(s0)->Ok_0.0);
        lemma_lines_consume(s1);
        let s2 = spec_lines(s1).1;
        if let Ok((s3, _)) = spec_section_end(s2) {
            let e0 = spec_tag("$END"@, s2)->0;
            lemma_keyword_consumes(e0);
            lemma_newlines_consume(spec_keyword(e0)->Ok_0.0);
        }
    }
}

/// Takes the end of a line from the head of `s`.
pub fn take_newlines(s: &str) -> (r: Result<(&str, ()), ParseError>)
    ensures
        agrees(r, spec_take_newlines(s@)),
{
    let s1 = match take_while(CharClass::CarriageReturn, s) {
        Ok((rest, _)) => rest,
        Err(_) => {
            return Err(ParseError::expected(Token::LineBreak, s));
        },
    };
    proof {
        lemma_prefix_len(s1@, CharClass::LineFeed);
    }
    let s2 = match take_while(CharClass::LineFeed, s1) {
        Ok((rest, feeds)) => {
            if feeds.is_empty() {
                return Err(ParseError::expected(Token::LineBreak, s));
            }
            rest
        },
        Err(_) => {
            return Err(ParseError::expected(Token::LineBreak, s));
        },
    };
    match take_while(CharClass::LineBreak, s2) {
        Ok((rest, _)) => Ok((rest, ())),
        Err(_) => Err(ParseError::expected(Token::LineBreak, s)),
    }
}

/// Takes the keyword at the head of `s`.
pub fn keyword(s: &str) -> (r: Result<(&str, &str), ParseError>)
    ensures
        agrees(r, spec_keyword(s@)),
{
    proof {
        lemma_prefix_len(s@, CharClass::Upper);
    }
    match take_while(CharClass::Upper, s) {
        Ok((rest, taken)) => {
            if taken.is_empty() {
                Err(ParseError::expected(Token::Keyword, s))
            } else {
                Ok((rest, taken))
            }
        },
        Err(_) => Err(ParseError::expected(Token::Keyword, s)),
    }
}

/// Takes the name behind the mark `mark` from the head of `s`.
fn section_mark<'a>(mark: &str, token: Token, s: &'a str) -> (r: Result<
    (&'a str, &'a str),
    ParseError,
>)
    ensures
        agrees(r, spec_section_mark(mark@, token, s@)),
{
    let s1 = match eat(mark, s) {
        Some(rest) => rest,
        None => {
            return Err(ParseError::expected(token, s));
        },
    };
    let (s2, name) = keyword(s1)?;
    let (s3, _) = take_newlines(s2)?;
    Ok((s3, name))
}

/// Takes the opening line of a section from the head of `s`.
pub fn section_start(s: &str) -> (r: Result<(&str, &str), ParseError>)
    ensures
        agrees(r, spec_section_start(s@)),
{
    section_mark("$", Token::SectionStart, s)
}

/// Takes the closing line of a section from the head of `s`.
pub fn section_end(s: &str) -> (r: Result<(&str, &str), ParseError>)
    ensures
        agrees(r, spec_section_end(s@)),
{
    section_mark("$END", Token::SectionEnd, s)
}

impl<'a> KeywordParam<'a> {
    /// Takes the line at the head of `input`.
    pub fn parse(input: &'a str) -> (r: Result<(&'a str, KeywordParam<'a>), ParseError>)
        ensures
            agrees(r, spec_keyword_param(input@)),
    {
        let (s1, keyword) = keyword(input)?;
        let s2 = match eat(" ", s1) {
            Some(rest) => rest,
            None => {
                return Err(ParseError::expected(Token::Separator, s1));
            },
        };
        let (s3, parameter) = match take_while(CharClass::NotLineBreak, s2) {
            Ok(found) => found,
            Err(_) => {
                return Err(ParseError::expected(Token::LineBreak, s2));
            },
        };
        let (s4, _) = take_newlines(s3)?;
        Ok((s4, KeywordParam { keyword, parameter }))
    }
}

/// Takes the lines at the head of `s`.
pub fn lines<'a>(s: &'a str) -> (r: (Vec<KeywordParam<'a>>, &'a str))
    ensures
        spec_lines(s@) == (r.0.deep_view(), r.1@),
{
    let mut found: Vec<KeywordParam<'a>> = Vec::new();
    let mut cur = s;
    loop
        invariant
            spec_lines(s@) == (found.deep_view() + spec_lines(cur@).0, spec_lines(cur@).1),
        ensures
            spec_lines(s@) == (found.deep_view(), cur@),
        decreases cur@.len(),
    {
        proof {
            lemma_keyword_param_consumes(cur@);
        }
        match KeywordParam::parse(cur) {
            Ok((rest, line)) => {
                let ghost before = found.deep_view();
                found.push(line);
                proof {
                    assert(found.deep_view() =~= before + seq![line.deep_view()]);
                    assert(found.deep_view() + spec_lines(rest@).0 =~= before + (seq![
                        line.deep_view(),
                    ] + spec_lines(rest@).0));
                }
                cur = rest;
            },
            Err(_) => {
                assert(found.deep_view() + Seq::<KeywordParamView>::empty()
                    =~= found.deep_view());
                break ;
            },
        }
    }
    (found, cur)
}

impl<'a> Section<'a> {
    /// Takes the section at the head of `input`.
    pub fn parse(input: &'a str) -> (r: Result<(&'a str, Section<'a>), ParseError>)
        ensures
            agrees(r, spec_section(input@)),
    {
        reveal(spec_section);
        let (s1, name) = section_start(input)?;
        let (parameters, s2) = lines(s1);
        let (s3, closed) = section_end(s2)?;
        if !str_eq(name, closed) {
            return Err(
                ParseError::MismatchedEnd { opened: name.to_owned(), closed: closed.to_owned() },
            );
        }
        Ok((s3, Section { name, parameters }))
    }
}

/// Splits the file `input` into its sections.
pub fn sections<'a>(input: &'a str) -> (r: Result<Vec<Section<'a>>, ParseError>)
    ensures
        agrees_whole(r, spec_sections(input@)),
{
    let (first_rest, first) = Section::parse(input)?;
    let mut found: Vec<Section<'a>> = Vec::new();
    found.push(first);
    let mut cur = first_rest;
    assert(found.deep_view() =~= seq![first.deep_view()]);
    while !cur.is_empty()
        invariant
            spec_sections(input@) == spec_more_sections(found.deep_view(), cur@),
        decreases cur@.len(),
    {
        proof {
            lemma_section_consumes(cur@);
        }
        match Section::parse(cur) {
            Ok((rest, section)) => {
                let ghost before = found.deep_view();
                let ghost view = section.deep_view();
                found.push(section);
                assert(found.deep_view() =~= before.push(view));
                cur = rest;
            },
            Err(_) => {
                return Err(ParseError::TrailingData { rest: cur.to_owned() });
            },
        }
    }
    Ok(found)
}

} // verus!
