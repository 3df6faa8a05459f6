//! How text that the library writes is split back into lines.
//!
//! The library writes one line per statement and puts a carriage return and
//! a line feed between two lines. A list that is empty is written as an empty
//! line. The facts of this module say that such text, read back, gives the
//! statements it was written from: empty lines vanish, and the lines come
//! back in their order.

use vstd::prelude::*;
use crate::error::ParseErrorView;
use crate::lex::{
    CharClass, lemma_prefix_len, lemma_prefix_len_all, lemma_prefix_len_is, one_line, prefix_len,
};
use crate::parser::{
    KeywordParamView, SectionView, spec_keyword, spec_keyword_param, spec_lines, spec_section,
    spec_section_mark, spec_take_newlines,
};
use crate::serialization::{crlf, join_lines};
use crate::types::util::lemma_tag_concat;

verus! {

/// `s` without the line breaks at its head.
pub open spec fn skip_breaks(s: Seq<char>) -> Seq<char> {
    s.skip(prefix_len(s, CharClass::LineBreak) as int)
}

/// Whether the text `text`, written among the lines of a section, is read as
/// the lines `lines`: with an end of line and anything behind it, the lines
/// at its head are `lines`, followed by the lines of what is behind.
pub open spec fn reads_as(text: Seq<char>, lines: Seq<KeywordParamView>) -> bool {
    forall|rest: Seq<char>|
        spec_lines(#[trigger] skip_breaks(text + crlf() + rest)) == (
            lines + spec_lines(skip_breaks(rest)).0,
            spec_lines(skip_breaks(rest)).1,
        )
}

/// Whether `kp` can be written as a line and read back: its keyword is made
/// of upper case letters, at least one, and its parameter holds no line break.
pub open spec fn statement_ok(kp: KeywordParamView) -> bool {
    &&& kp.keyword.len() > 0
    &&& forall|i: int|
        0 <= i < kp.keyword.len() ==> CharClass::Upper.spec_contains(#[trigger] kp.keyword[i])
    &&& forall|i: int|
        0 <= i < kp.parameter.len() ==> CharClass::NotLineBreak.spec_contains(
            #[trigger] kp.parameter[i],
        )
}

/// The lists `lists`, one behind the other.
pub open spec fn concat_all<A>(lists: Seq<Seq<A>>) -> Seq<A>
    decreases lists.len(),
{
    if lists.len() == 0 {
        Seq::empty()
    } else {
        concat_all(lists.drop_last()) + lists.last()
    }
}

/// The prefix of a class splits at the prefix of a class inside it.
pub proof fn lemma_prefix_len_split(s: Seq<char>, inner: CharClass, outer: CharClass)
    requires
        forall|c: char| inner.spec_contains(c) ==> outer.spec_contains(c),
    ensures
        prefix_len(s, outer) == prefix_len(s, inner) + prefix_len(
            s.skip(prefix_len(s, inner) as int),
            outer,
        ),
{
    let a = prefix_len(s, inner) as int;
    lemma_prefix_len(s, inner);
    let r = s.skip(a);
    let b = prefix_len(r, outer) as int;
    lemma_prefix_len(r, outer);
    assert forall|i: int| 0 <= i < a + b implies outer.spec_contains(#[trigger] s[i]) by {
        if i >= a {
            assert(s[i] == r[i - a]);
        }
    }
    if a + b < s.len() {
        assert(s[a + b] == r[b]);
    }
    lemma_prefix_len_is(s, outer, (a + b) as nat);
}

/// The end of a line that the library writes, with anything behind it, is
/// taken with all the line breaks that follow.
pub proof fn lemma_newlines_written(rest: Seq<char>)
    ensures
        spec_take_newlines(crlf() + rest) == Ok::<(Seq<char>, ()), ParseErrorView>(
            (skip_breaks(rest), ()),
        ),
        skip_breaks(crlf() + rest) == skip_breaks(rest),
{
    let s = crlf() + rest;
    assert(s[0] == '\r');
    assert(s[1] == '\n');
    lemma_prefix_len_is(s, CharClass::CarriageReturn, 1);
    let s1 = s.skip(1);
    assert(s1 =~= seq!['\n'] + rest);
    let f = prefix_len(rest, CharClass::LineFeed) as int;
    lemma_prefix_len(rest, CharClass::LineFeed);
    assert forall|i: int| 0 <= i < f + 1 implies CharClass::LineFeed.spec_contains(
        #[trigger] s1[i],
    ) by {
        if i > 0 {
            assert(s1[i] == rest[i - 1]);
        }
    }
    if f + 1 < s1.len() {
        assert(s1[f + 1] == rest[f]);
    }
    lemma_prefix_len_is(s1, CharClass::LineFeed, (f + 1) as nat);
    let s2 = s1.skip(f + 1);
    assert(s2 =~= rest.skip(f));
    lemma_prefix_len_split(rest, CharClass::LineFeed, CharClass::LineBreak);
    lemma_prefix_len(rest.skip(f), CharClass::LineBreak);
    lemma_prefix_len(rest, CharClass::LineBreak);
    assert(rest.skip(f).skip(prefix_len(rest.skip(f), CharClass::LineBreak) as int)
        =~= skip_breaks(rest));
    let b = prefix_len(rest, CharClass::LineBreak) as int;
    lemma_prefix_len(rest, CharClass::LineBreak);
    assert forall|i: int| 0 <= i < b + 2 implies CharClass::LineBreak.spec_contains(
        #[trigger] s[i],
    ) by {
        if i >= 2 {
            assert(s[i] == rest[i - 2]);
        }
    }
    if b + 2 < s.len() {
        assert(s[b + 2] == rest[b]);
    }
    lemma_prefix_len_is(s, CharClass::LineBreak, (b + 2) as nat);
    assert(s.skip(b + 2) =~= rest.skip(b));
}

/// A text that does not begin with a line break has none to skip.
pub proof fn lemma_skip_no_breaks(s: Seq<char>)
    requires
        s.len() == 0 || !CharClass::LineBreak.spec_contains(s[0]),
    ensures
        skip_breaks(s) == s,
{
    assert(s.skip(0) =~= s);
}

/// What is left behind skipped line breaks is no longer than the text.
pub proof fn lemma_skip_breaks_shorter(s: Seq<char>)
    ensures
        skip_breaks(s).len() <= s.len(),
        skip_breaks(s).len() == 0 || !CharClass::LineBreak.spec_contains(skip_breaks(s)[0]),
{
    lemma_prefix_len(s, CharClass::LineBreak);
}

/// A keyword of upper case letters before a character that is none is read
/// as the keyword.
pub proof fn lemma_keyword_written(k: Seq<char>, rest: Seq<char>)
    requires
        k.len() > 0,
        forall|i: int| 0 <= i < k.len() ==> CharClass::Upper.spec_contains(#[trigger] k[i]),
        rest.len() == 0 || !CharClass::Upper.spec_contains(rest[0]),
    ensures
        spec_keyword(k + rest) == Ok::<(Seq<char>, Seq<char>), ParseErrorView>((rest, k)),
{
    lemma_prefix_len_all(k, rest, CharClass::Upper);
}

/// A statement that is written as a line is read as that statement.
pub proof fn lemma_line_written(kp: KeywordParamView, rest: Seq<char>)
    requires
        statement_ok(kp),
    ensures
        spec_keyword_param(kp.keyword + " "@ + kp.parameter + crlf() + rest) == Ok::<
            (Seq<char>, KeywordParamView),
            ParseErrorView,
        >((skip_breaks(rest), kp)),
{
    reveal_strlit(" ");
    let after_param = crlf() + rest;
    let after_space = kp.parameter + after_param;
    let after_keyword = " "@ + after_space;
    let u = kp.keyword + " "@ + kp.parameter + crlf() + rest;
    assert(u =~= kp.keyword + after_keyword);
    assert(after_keyword[0] == ' ');
    lemma_keyword_written(kp.keyword, after_keyword);
    lemma_tag_concat(" "@, after_space);
    assert(after_param[0] == '\r');
    lemma_prefix_len_all(kp.parameter, after_param, CharClass::NotLineBreak);
    lemma_newlines_written(rest);
}

/// A statement that is written as a line is read as that statement alone.
pub proof fn lemma_reads_line(kp: KeywordParamView)
    requires
        statement_ok(kp),
    ensures
        reads_as(kp.keyword + " "@ + kp.parameter, seq![kp]),
{
    let text = kp.keyword + " "@ + kp.parameter;
    assert forall|rest: Seq<char>|
        spec_lines(#[trigger] skip_breaks(text + crlf() + rest)) == (
            seq![kp] + spec_lines(skip_breaks(rest)).0,
            spec_lines(skip_breaks(rest)).1,
        ) by {
        let u = text + crlf() + rest;
        assert(u[0] == kp.keyword[0]);
        assert(CharClass::Upper.spec_contains(kp.keyword[0]));
        lemma_skip_no_breaks(u);
        lemma_line_written(kp, rest);
        lemma_skip_breaks_shorter(rest);
    }
}

/// An empty text is read as no line.
pub proof fn lemma_reads_empty()
    ensures
        reads_as(Seq::empty(), Seq::empty()),
{
    let none = Seq::<char>::empty();
    assert forall|rest: Seq<char>|
        spec_lines(#[trigger] skip_breaks(none + crlf() + rest)) == (
            Seq::<KeywordParamView>::empty() + spec_lines(skip_breaks(rest)).0,
            spec_lines(skip_breaks(rest)).1,
        ) by {
        assert(none + crlf() + rest =~= crlf() + rest);
        lemma_newlines_written(rest);
        assert(Seq::<KeywordParamView>::empty() + spec_lines(skip_breaks(rest)).0 =~= spec_lines(
            skip_breaks(rest),
        ).0);
    }
}

/// Two texts with an end of line between them are read as the lines of the
/// first and then the lines of the second.
pub proof fn lemma_reads_join(
    a: Seq<char>,
    la: Seq<KeywordParamView>,
    b: Seq<char>,
    lb: Seq<KeywordParamView>,
)
    requires
        reads_as(a, la),
        reads_as(b, lb),
    ensures
        reads_as(a + crlf() + b, la + lb),
{
    assert forall|rest: Seq<char>|
        spec_lines(#[trigger] skip_breaks(a + crlf() + b + crlf() + rest)) == (
            la + lb + spec_lines(skip_breaks(rest)).0,
            spec_lines(skip_breaks(rest)).1,
        ) by {
        let inner = b + crlf() + rest;
        assert(a + crlf() + b + crlf() + rest =~= a + crlf() + inner);
        assert(spec_lines(skip_breaks(a + crlf() + inner)) == (
            la + spec_lines(skip_breaks(inner)).0,
            spec_lines(skip_breaks(inner)).1,
        ));
        assert(spec_lines(skip_breaks(b + crlf() + rest)) == (
            lb + spec_lines(skip_breaks(rest)).0,
            spec_lines(skip_breaks(rest)).1,
        ));
        assert(la + (lb + spec_lines(skip_breaks(rest)).0) =~= la + lb + spec_lines(
            skip_breaks(rest),
        ).0);
    }
}

/// Texts that are joined line by line are read as their lines, one list
/// behind the other.
pub proof fn lemma_reads_join_lines(texts: Seq<Seq<char>>, lines: Seq<Seq<KeywordParamView>>)
    requires
        texts.len() == lines.len(),
        forall|i: int| 0 <= i < texts.len() ==> reads_as(#[trigger] texts[i], lines[i]),
    ensures
        reads_as(join_lines(texts), concat_all(lines)),
    decreases texts.len(),
{
    if texts.len() == 0 {
        lemma_reads_empty();
    } else if texts.len() == 1 {
        assert(lines.drop_last().len() == 0);
        assert(concat_all(lines.drop_last()) =~= Seq::<KeywordParamView>::empty());
        assert(concat_all(lines) =~= lines[0]);
        assert(reads_as(texts[0], lines[0]));
    } else {
        let first = texts.drop_last();
        let first_lines = lines.drop_last();
        assert forall|i: int| 0 <= i < first.len() implies reads_as(
            #[trigger] first[i],
            first_lines[i],
        ) by {
            assert(first[i] == texts[i]);
            assert(reads_as(texts[i], lines[i]));
        }
        lemma_reads_join_lines(first, first_lines);
        assert(reads_as(texts[texts.len() - 1], lines[texts.len() - 1]));
        lemma_reads_join(join_lines(first), concat_all(first_lines), texts.last(), lines.last());
    }
}

/// Whether `name` can be the name of a section: upper case letters, at
/// least one.
pub open spec fn name_ok(name: Seq<char>) -> bool {
    &&& name.len() > 0
    &&& forall|i: int| 0 <= i < name.len() ==> CharClass::Upper.spec_contains(#[trigger] name[i])
}

/// The text of a section: the opening line, the body, the closing line.
pub open spec fn section_text(name: Seq<char>, body: Seq<char>) -> Seq<char> {
    "$"@ + name + crlf() + body + crlf() + "$END"@ + name
}

/// Whether the text `text`, written as a section of a file, is read as the
/// section `section`: with an end of line and anything behind it, the section
/// at its head is `section`, and what is left begins behind the line breaks.
pub open spec fn writes_section(text: Seq<char>, section: SectionView) -> bool {
    &&& text.len() > 0
    &&& text[0] == '$'
    &&& forall|rest: Seq<char>|
        spec_section(#[trigger] (text + crlf() + rest)) == Ok::<
            (Seq<char>, SectionView),
            ParseErrorView,
        >((skip_breaks(rest), section))
}

/// A mark and a name on a line of their own are read as the name.
proof fn lemma_mark_written(mark: Seq<char>, token: crate::error::Token, name: Seq<char>, rest: Seq<char>)
    requires
        name_ok(name),
    ensures
        spec_section_mark(mark, token, mark + name + crlf() + rest) == Ok::<
            (Seq<char>, Seq<char>),
            ParseErrorView,
        >((skip_breaks(rest), name)),
{
    let after_name = crlf() + rest;
    let after_mark = name + after_name;
    assert(mark + name + crlf() + rest =~= mark + after_mark);
    lemma_tag_concat(mark, after_mark);
    assert(after_name[0] == '\r');
    lemma_keyword_written(name, after_name);
    lemma_newlines_written(rest);
}

/// The closing line of a section is no line of the section.
proof fn lemma_lines_end_at_mark(e: Seq<char>)
    requires
        e.len() > 0,
        e[0] == '$',
    ensures
        skip_breaks(e) == e,
        spec_lines(e) == (Seq::<KeywordParamView>::empty(), e),
{
    lemma_skip_no_breaks(e);
    assert(prefix_len(e, CharClass::Upper) == 0);
}

/// A section that is written around a body is read as the section of the
/// lines of the body.
pub proof fn lemma_section_written(
    name: Seq<char>,
    body: Seq<char>,
    lines: Seq<KeywordParamView>,
)
    requires
        name_ok(name),
        reads_as(body, lines),
    ensures
        writes_section(section_text(name, body), SectionView { name, parameters: lines }),
{
    reveal(spec_section);
    reveal_strlit("$");
    reveal_strlit("$END");
    let text = section_text(name, body);
    assert(text[0] == '$');
    assert forall|rest: Seq<char>|
        spec_section(#[trigger] (text + crlf() + rest)) == Ok::<
            (Seq<char>, SectionView),
            ParseErrorView,
        >((skip_breaks(rest), SectionView { name, parameters: lines })) by {
        let e = "$END"@ + name + crlf() + rest;
        let x = body + crlf() + e;
        let u = text + crlf() + rest;
        assert(u =~= "$"@ + name + crlf() + x);
        lemma_mark_written("$"@, crate::error::Token::SectionStart, name, x);
        assert(spec_lines(skip_breaks(body + crlf() + e)) == (
            lines + spec_lines(skip_breaks(e)).0,
            spec_lines(skip_breaks(e)).1,
        ));
        assert(e[0] == '$');
        lemma_lines_end_at_mark(e);
        assert(lines + Seq::<KeywordParamView>::empty() =~= lines);
        lemma_mark_written("$END"@, crate::error::Token::SectionEnd, name, rest);
    }
}

/// A section that is written around no body at all, the closing line right
/// behind the opening line, is read as the section without lines.
pub proof fn lemma_empty_section_written(name: Seq<char>)
    requires
        name_ok(name),
    ensures
        writes_section(
            "$"@ + name + crlf() + "$END"@ + name,
            SectionView { name, parameters: Seq::empty() },
        ),
{
    reveal(spec_section);
    reveal_strlit("$");
    reveal_strlit("$END");
    let text = "$"@ + name + crlf() + "$END"@ + name;
    assert(text[0] == '$');
    assert forall|rest: Seq<char>|
        spec_section(#[trigger] (text + crlf() + rest)) == Ok::<
            (Seq<char>, SectionView),
            ParseErrorView,
        >((skip_breaks(rest), SectionView { name, parameters: Seq::empty() })) by {
        let e = "$END"@ + name + crlf() + rest;
        let u = text + crlf() + rest;
        assert(u =~= "$"@ + name + crlf() + e);
        lemma_mark_written("$"@, crate::error::Token::SectionStart, name, e);
        assert(e[0] == '$');
        lemma_lines_end_at_mark(e);
        lemma_mark_written("$END"@, crate::error::Token::SectionEnd, name, rest);
    }
}

/// Statements that are written one per line are read as the statements.
pub proof fn lemma_reads_statements(
    statements: Seq<KeywordParamView>,
    text: spec_fn(KeywordParamView) -> Seq<char>,
)
    requires
        forall|i: int| 0 <= i < statements.len() ==> statement_ok(#[trigger] statements[i]),
        forall|kp: KeywordParamView| #[trigger] text(kp) == kp.keyword + " "@ + kp.parameter,
    ensures
        reads_as(join_lines(statements.map_values(text)), statements),
{
    let texts = statements.map_values(text);
    let lines = statements.map_values(|kp: KeywordParamView| seq![kp]);
    assert forall|i: int| 0 <= i < texts.len() implies reads_as(#[trigger] texts[i], lines[i]) by {
        assert(statement_ok(statements[i]));
        lemma_reads_line(statements[i]);
        assert(texts[i] == text(statements[i]));
    }
    lemma_reads_join_lines(texts, lines);
    lemma_concat_singletons(statements);
}

/// Lists of one item each, one behind the other, are the list of the items.
pub proof fn lemma_concat_singletons<A>(items: Seq<A>)
    ensures
        concat_all(items.map_values(|a: A| seq![a])) == items,
    decreases items.len(),
{
    let lists = items.map_values(|a: A| seq![a]);
    if items.len() == 0 {
        assert(concat_all(lists) =~= items);
    } else {
        lemma_concat_singletons(items.drop_last());
        assert(lists.drop_last() =~= items.drop_last().map_values(|a: A| seq![a]));
        assert(lists.last() == seq![items.last()]);
        assert(concat_all(lists) =~= items);
    }
}

/// A line of a keyword and a parameter that can stand on one line is read
/// as that keyword with that parameter.
pub proof fn lemma_reads_keyword_line(head: Seq<char>, keyword: Seq<char>, parameter: Seq<char>)
    requires
        head == keyword + " "@,
        keyword.len() > 0,
        forall|i: int| 0 <= i < keyword.len() ==> 'A' <= #[trigger] keyword[i] <= 'Z',
        one_line(parameter),
    ensures
        reads_as(head + parameter, seq![KeywordParamView { keyword, parameter }]),
{
    let kp = KeywordParamView { keyword, parameter };
    assert(statement_ok(kp)) by {
        assert forall|i: int| 0 <= i < kp.keyword.len() implies CharClass::Upper.spec_contains(
            #[trigger] kp.keyword[i],
        ) by {
            assert('A' <= keyword[i] <= 'Z');
        }
    }
    lemma_reads_line(kp);
}

/// One more text behind joined texts is read as one more list of lines.
pub proof fn lemma_reads_push(
    texts: Seq<Seq<char>>,
    lines: Seq<Seq<KeywordParamView>>,
    text: Seq<char>,
    more: Seq<KeywordParamView>,
)
    requires
        texts.len() == lines.len(),
        reads_as(join_lines(texts), concat_all(lines)),
        reads_as(text, more),
    ensures
        reads_as(join_lines(texts.push(text)), concat_all(lines.push(more))),
        concat_all(lines.push(more)) == concat_all(lines) + more,
{
    assert(texts.push(text).drop_last() =~= texts);
    assert(lines.push(more).drop_last() =~= lines);
    if texts.len() == 0 {
        assert(concat_all(lines) =~= Seq::<KeywordParamView>::empty());
        assert(concat_all(lines.push(more)) =~= more);
    } else {
        lemma_reads_join(join_lines(texts), concat_all(lines), text, more);
    }
}

/// Items that are written each as one line are read as one line each.
pub proof fn lemma_reads_each<A>(
    items: Seq<A>,
    text: spec_fn(A) -> Seq<char>,
    line: spec_fn(A) -> KeywordParamView,
)
    requires
        forall|i: int| 0 <= i < items.len() ==> reads_as(text(#[trigger] items[i]), seq![line(items[i])]),
    ensures
        reads_as(join_lines(items.map_values(text)), items.map_values(line)),
    decreases items.len(),
{
    let texts = items.map_values(text);
    let lines = items.map_values(line);
    if items.len() == 0 {
        lemma_reads_empty();
        assert(lines =~= Seq::<KeywordParamView>::empty());
    } else if items.len() == 1 {
        assert(reads_as(text(items[0]), seq![line(items[0])]));
        assert(texts[0] == text(items[0]));
        assert(lines =~= seq![line(items[0])]);
    } else {
        let first = items.drop_last();
        assert forall|i: int| 0 <= i < first.len() implies reads_as(
            text(#[trigger] first[i]),
            seq![line(first[i])],
        ) by {
            assert(first[i] == items[i]);
        }
        lemma_reads_each(first, text, line);
        assert(texts.drop_last() =~= first.map_values(text));
        assert(reads_as(text(items[items.len() - 1]), seq![line(items[items.len() - 1])]));
        assert(texts.last() == text(items.last()));
        lemma_reads_join(
            join_lines(first.map_values(text)),
            first.map_values(line),
            texts.last(),
            seq![line(items.last())],
        );
        assert(first.map_values(line) + seq![line(items.last())] =~= lines);
    }
}

/// One more text behind joined texts is read as more statements behind the
/// statements of the texts so far.
pub proof fn lemma_reads_more(
    texts: Seq<Seq<char>>,
    statements: Seq<KeywordParamView>,
    text: Seq<char>,
    more: Seq<KeywordParamView>,
)
    requires
        texts.len() == 0 ==> statements.len() == 0,
        reads_as(join_lines(texts), statements),
        reads_as(text, more),
    ensures
        reads_as(join_lines(texts.push(text)), statements + more),
{
    assert(texts.push(text).drop_last() =~= texts);
    if texts.len() == 0 {
        assert(statements + more =~= more);
    } else {
        lemma_reads_join(join_lines(texts), statements, text, more);
    }
}

/// The statement of a field that may be missing: none where it is missing.
pub open spec fn opt_statement(keyword: Seq<char>, text: Option<Seq<char>>) -> Seq<
    KeywordParamView,
> {
    match text {
        Some(t) => seq![KeywordParamView { keyword, parameter: t }],
        None => Seq::empty(),
    }
}

/// The line of a field that may be missing, behind joined texts, is read as
/// its statement, or as nothing where the field is missing.
pub proof fn lemma_reads_opt(
    texts: Seq<Seq<char>>,
    statements: Seq<KeywordParamView>,
    head: Seq<char>,
    keyword: Seq<char>,
    text: Option<Seq<char>>,
)
    requires
        texts.len() == 0 ==> statements.len() == 0,
        reads_as(join_lines(texts), statements),
        head == keyword + " "@,
        keyword.len() > 0,
        forall|i: int| 0 <= i < keyword.len() ==> 'A' <= #[trigger] keyword[i] <= 'Z',
        text matches Some(t) ==> one_line(t),
    ensures
        reads_as(
            join_lines(texts + crate::serialization::opt_line(head, text)),
            statements + opt_statement(keyword, text),
        ),
{
    match text {
        Some(t) => {
            lemma_reads_keyword_line(head, keyword, t);
            lemma_reads_more(texts, statements, head + t, opt_statement(keyword, text));
            assert(texts + crate::serialization::opt_line(head, text) =~= texts.push(head + t));
        },
        None => {
            assert(texts + crate::serialization::opt_line(head, text) =~= texts);
            assert(statements + opt_statement(keyword, text) =~= statements);
        },
    }
}

/// Two lists of texts, one behind the other, are read as the statements of
/// the first and then those of the second.
pub proof fn lemma_reads_concat(
    a: Seq<Seq<char>>,
    sa: Seq<KeywordParamView>,
    b: Seq<Seq<char>>,
    sb: Seq<KeywordParamView>,
)
    requires
        a.len() == 0 ==> sa.len() == 0,
        b.len() == 0 ==> sb.len() == 0,
        reads_as(join_lines(a), sa),
        reads_as(join_lines(b), sb),
    ensures
        reads_as(join_lines(a + b), sa + sb),
        (a + b).len() == 0 ==> (sa + sb).len() == 0,
{
    crate::serialization::lemma_join_lines_concat(a, b);
    if a.len() == 0 {
        assert(sa + sb =~= sb);
    } else if b.len() == 0 {
        assert(sa + sb =~= sa);
    } else {
        lemma_reads_join(join_lines(a), sa, join_lines(b), sb);
    }
}

} // verus!
