//! Rendering of the typed model as GenCAD text.

use vstd::prelude::*;
use vstd::string::*;

verus! {

/// A value that has a GenCAD text.
pub trait ToGencadString {
    /// The text of the value.
    spec fn gencad(&self) -> Seq<char>;

    /// Renders the value as GenCAD text.
    fn to_gencad_string(&self) -> (r: String)
        ensures
            r@ == self.gencad(),
    ;
}

/// The end of a line, as the library writes it.
pub open spec fn crlf() -> Seq<char> {
    seq!['\r', '\n']
}

/// The lines `lines` with an end of line between each two.
pub open spec fn join_lines(lines: Seq<Seq<char>>) -> Seq<char>
    decreases lines.len(),
{
    if lines.len() == 0 {
        Seq::empty()
    } else if lines.len() == 1 {
        lines[0]
    } else {
        join_lines(lines.drop_last()) + crlf() + lines.last()
    }
}

/// Joins the lines `lines` with an end of line between each two.
pub fn join(lines: &Vec<String>) -> (r: String)
    ensures
        r@ == join_lines(lines.deep_view()),
{
    let mut out = String::new();
    let ghost all = lines.deep_view();
    let mut i: usize = 0;
    while i < lines.len()
        invariant
            0 <= i <= lines.len(),
            all == lines.deep_view(),
            out@ == join_lines(all.take(i as int)),
        decreases lines.len() - i,
    {
        proof {
            assert(all.take(i + 1).drop_last() == all.take(i as int));
            assert(all.take(i + 1).last() == lines[i as int]@);
        }
        if i > 0 {
            out.push('\r');
            out.push('\n');
        }
        out.append(lines[i].as_str());
        proof {
            if i > 0 {
                assert(out@ =~= join_lines(all.take(i as int)) + crlf() + lines[i as int]@);
            } else {
                assert(out@ =~= lines[i as int]@);
                assert(all.take(1).len() == 1);
            }
        }
        i += 1;
    }
    assert(all.take(i as int) == all);
    out
}

/// Adds the lines `more` to the end of `lines`.
pub fn extend_lines(lines: &mut Vec<String>, more: Vec<String>)
    ensures
        final(lines).deep_view() == old(lines).deep_view() + more.deep_view(),
{
    let mut more = more;
    let ghost a = lines.deep_view();
    let ghost b = more.deep_view();
    lines.append(&mut more);
    assert(lines.deep_view() =~= a + b);
}

/// Adds the line `line` to the end of `lines`.
pub fn push_line(lines: &mut Vec<String>, line: String)
    ensures
        final(lines).deep_view() == old(lines).deep_view().push(line@),
{
    let ghost a = lines.deep_view();
    lines.push(line);
    assert(lines.deep_view() =~= a.push(line@));
}

/// The text `head` followed by `tail`.
pub fn concat(head: &str, tail: &str) -> (r: String)
    ensures
        r@ == head@ + tail@,
{
    let mut out = String::from_str(head);
    out.append(tail);
    out
}

/// The line of a field that may be missing: `prefix` and `text`, or no line.
pub open spec fn opt_line(prefix: Seq<char>, text: Option<Seq<char>>) -> Seq<Seq<char>> {
    match text {
        Some(t) => seq![prefix + t],
        None => Seq::empty(),
    }
}

/// Adds the line of a field that may be missing to the end of `lines`.
pub fn push_opt_line(lines: &mut Vec<String>, prefix: &str, text: Option<String>)
    ensures
        final(lines).deep_view() == old(lines).deep_view() + opt_line(prefix@, text.deep_view()),
{
    let ghost a = lines.deep_view();
    match text {
        Some(t) => {
            lines.push(concat(prefix, t.as_str()));
            assert(lines.deep_view() =~= a + opt_line(prefix@, text.deep_view()));
        },
        None => {
            assert(lines.deep_view() =~= a + opt_line(prefix@, text.deep_view()));
        },
    }
}

/// The text of a field that may be missing.
pub fn render_opt<T: ToGencadString>(item: &Option<T>) -> (r: Option<String>)
    ensures
        match (r, *item) {
            (Some(text), Some(v)) => text@ == v.gencad(),
            (None, None) => true,
            _ => false,
        },
{
    match item {
        Some(v) => Some(v.to_gencad_string()),
        None => None,
    }
}

/// Puts the opening line `start` and the closing line `end` around `body`.
pub fn wrap_section(start: &str, body: String, end: &str) -> (r: String)
    ensures
        r@ == join_lines(seq![start@, body@, end@]),
{
    let mut lines: Vec<String> = Vec::new();
    lines.push(String::from_str(start));
    lines.push(body);
    lines.push(String::from_str(end));
    assert(lines.deep_view() =~= seq![start@, body@, end@]);
    join(&lines)
}

/// Renders each of `items`.
pub fn render_all<T: ToGencadString>(items: &Vec<T>) -> (r: Vec<String>)
    ensures
        r@.len() == items@.len(),
        forall|i: int| 0 <= i < items@.len() ==> (#[trigger] r@[i])@ == items@[i].gencad(),
{
    let mut out: Vec<String> = Vec::new();
    let mut i: usize = 0;
    while i < items.len()
        invariant
            0 <= i <= items.len(),
            out@.len() == i,
            forall|j: int| 0 <= j < i ==> (#[trigger] out@[j])@ == items@[j].gencad(),
        decreases items.len() - i,
    {
        out.push(items[i].to_gencad_string());
        i += 1;
    }
    out
}

/// Joined lines begin with the first line: the first line, an end of line,
/// and the other lines joined.
pub proof fn lemma_join_lines_front(lines: Seq<Seq<char>>)
    requires
        lines.len() >= 2,
    ensures
        join_lines(lines) == lines[0] + crlf() + join_lines(lines.skip(1)),
    decreases lines.len(),
{
    if lines.len() == 2 {
        assert(lines.drop_last().len() == 1);
        assert(lines.skip(1).len() == 1);
        assert(join_lines(lines.drop_last()) == lines[0]);
        assert(join_lines(lines.skip(1)) == lines[1]);
    } else {
        lemma_join_lines_front(lines.drop_last());
        assert(lines.drop_last().skip(1) =~= lines.skip(1).drop_last());
        assert(lines.skip(1).last() == lines.last());
        assert(lines.drop_last()[0] == lines[0]);
        assert(join_lines(lines) =~= lines[0] + crlf() + join_lines(lines.skip(1)));
    }
}

/// Two lines joined.
pub proof fn lemma_join_two(a: Seq<char>, b: Seq<char>)
    ensures
        join_lines(seq![a, b]) == a + crlf() + b,
{
    lemma_join_lines_front(seq![a, b]);
    assert(seq![a, b].skip(1) =~= seq![b]);
}

/// Three lines joined.
pub proof fn lemma_join_three(a: Seq<char>, b: Seq<char>, c: Seq<char>)
    ensures
        join_lines(seq![a, b, c]) == a + crlf() + b + crlf() + c,
{
    lemma_join_lines_front(seq![a, b, c]);
    assert(seq![a, b, c].skip(1) =~= seq![b, c]);
    lemma_join_two(b, c);
    assert(a + crlf() + (b + crlf() + c) =~= a + crlf() + b + crlf() + c);
}

/// Lines between an opening line and a closing line, joined: the opening
/// line, the lines joined, and the closing line, where there are lines; the
/// two lines alone where there are none.
pub proof fn lemma_join_wrapped(start: Seq<char>, lines: Seq<Seq<char>>, end: Seq<char>)
    ensures
        join_lines(seq![start] + lines + seq![end]) == if lines.len() == 0 {
            start + crlf() + end
        } else {
            start + crlf() + join_lines(lines) + crlf() + end
        },
{
    let all = seq![start] + lines + seq![end];
    let inner = seq![start] + lines;
    assert(all.drop_last() =~= inner);
    assert(all.last() == end);
    assert(all.len() >= 2);
    assert(join_lines(all) == join_lines(inner) + crlf() + end);
    if lines.len() == 0 {
        assert(inner =~= seq![start]);
        assert(inner.len() == 1);
        assert(join_lines(inner) == start);
    } else {
        lemma_join_lines_front(inner);
        assert(inner.skip(1) =~= lines);
        assert(inner[0] == start);
        assert(join_lines(inner) == start + crlf() + join_lines(lines));
    }
}

/// Two lists of lines joined as one: the first joined, an end of line, and
/// the second joined, where neither is empty.
pub proof fn lemma_join_lines_concat(a: Seq<Seq<char>>, b: Seq<Seq<char>>)
    ensures
        join_lines(a + b) == if a.len() == 0 {
            join_lines(b)
        } else if b.len() == 0 {
            join_lines(a)
        } else {
            join_lines(a) + crlf() + join_lines(b)
        },
    decreases b.len(),
{
    if a.len() == 0 {
        assert(a + b =~= b);
    } else if b.len() == 0 {
        assert(a + b =~= a);
    } else {
        let first = b.drop_last();
        lemma_join_lines_concat(a, first);
        assert((a + b).drop_last() =~= a + first);
        assert((a + b).last() == b.last());
        if first.len() == 0 {
            assert(b.len() == 1);
            assert(join_lines(b) == b[0]);
            assert(join_lines(a + b) == join_lines(a) + crlf() + b.last());
        } else {
            assert(join_lines(a + b) =~= join_lines(a) + crlf() + join_lines(b));
        }
    }
}

/// Four lines joined.
pub proof fn lemma_join_four(a: Seq<char>, b: Seq<char>, c: Seq<char>, d: Seq<char>)
    ensures
        join_lines(seq![a, b, c, d]) == a + crlf() + (b + crlf() + c) + crlf() + d,
{
    lemma_join_lines_front(seq![a, b, c, d]);
    assert(seq![a, b, c, d].skip(1) =~= seq![b, c, d]);
    lemma_join_three(b, c, d);
    assert(a + crlf() + (b + crlf() + c + crlf() + d) =~= a + crlf() + (b + crlf() + c) + crlf()
        + d);
}

} // verus!
