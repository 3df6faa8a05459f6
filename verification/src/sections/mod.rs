//! The section builders: each turns the lines of one section into typed
//! records.
//!
//! Records have no closing line. A builder keeps the record that is open and,
//! for each line, either starts a record, adds to the open one, or closes it
//! and hands the line to the level above. What is open at the end of the
//! section is closed there.

pub mod board;
pub mod components;
pub mod devices;
pub mod header;
pub mod pads;
pub mod padstacks;
pub mod shapes;
pub mod signals;
pub mod unknown;

use vstd::prelude::*;
use crate::error::{Parsed, ParseError, ParseErrorView, SectionKind};
use crate::lex::one_line;
use crate::parser::KeywordParamView;
use crate::parser::keyword::{Keyword, lemma_keyword};
use crate::parser::written::{lemma_reads_each, lemma_reads_keyword_line, opt_statement, reads_as};
use crate::types::attrib_ref::{
    attribute_line, attribute_ok, attribute_text, attributes_text, AttributeView,
    lemma_attribute_one_line, lemma_attribute_round_trip, spec_attrib_ref,
};
use crate::types::number::{is_number, lemma_number_one_line, lemma_number_round_trip, spec_number};
use crate::types::p_integer::{
    decimal_digits, lemma_decimal_one_line, lemma_p_integer_round_trip, spec_p_integer,
};
use crate::types::string::{
    is_writable, lemma_part_name_round_trip, lemma_string_one_line, lemma_string_round_trip,
    spec_part_name, spec_string, string_text,
};
use crate::types::x_y_ref::{
    lemma_x_y_one_line, lemma_x_y_round_trip, spec_x_y_ref, x_y_ok, x_y_text, XYRefView,
};

verus! {

/// The value of a parse whose remainder is not looked at.
pub open spec fn whole<V>(p: Parsed<V>) -> Result<V, ParseErrorView> {
    match p {
        Ok((_, v)) => Ok(v),
        Err(e) => Err(e),
    }
}

/// The value of a field that can be given once: what it holds already, else
/// what `parsed` gives. A line for a field that is set is not even decoded.
pub open spec fn first_wins<V>(held: Option<V>, parsed: Result<V, ParseErrorView>) -> Result<
    Option<V>,
    ParseErrorView,
> {
    match held {
        Some(v) => Ok(Some(v)),
        None => match parsed {
            Ok(v) => Ok(Some(v)),
            Err(e) => Err(e),
        },
    }
}

/// The error of a keyword that nothing open in `section` admits.
pub fn unexpected(section: SectionKind, keyword: &str) -> (r: ParseError)
    ensures
        r.deep_view() == (ParseErrorView::UnexpectedKeyword { section, keyword: keyword@ }),
{
    ParseError::UnexpectedKeyword { section, keyword: keyword.to_owned() }
}

/// The state that `step` leads to from `init` over `lines`, or the first
/// error on the way.
pub open spec fn run<S>(
    step: spec_fn(S, KeywordParamView) -> Result<S, ParseErrorView>,
    init: S,
    lines: Seq<KeywordParamView>,
) -> Result<S, ParseErrorView>
    decreases lines.len(),
{
    if lines.len() == 0 {
        Ok(init)
    } else {
        match run(step, init, lines.drop_last()) {
            Err(e) => Err(e),
            Ok(state) => step(state, lines.last()),
        }
    }
}

/// An error on the first `n` lines is the error on all lines.
pub proof fn lemma_run_error<S>(
    step: spec_fn(S, KeywordParamView) -> Result<S, ParseErrorView>,
    init: S,
    lines: Seq<KeywordParamView>,
    n: int,
)
    requires
        0 <= n <= lines.len(),
    ensures
        run(step, init, lines.take(n)) is Err ==> run(step, init, lines) == run(
            step,
            init,
            lines.take(n),
        ),
    decreases lines.len() - n,
{
    if n < lines.len() {
        assert(lines.take(n + 1).drop_last() == lines.take(n));
        lemma_run_error(step, init, lines, n + 1);
    } else {
        assert(lines.take(n) == lines);
    }
}

/// One more line is one more step.
pub proof fn lemma_run_step<S>(
    step: spec_fn(S, KeywordParamView) -> Result<S, ParseErrorView>,
    init: S,
    lines: Seq<KeywordParamView>,
    n: int,
)
    requires
        0 <= n < lines.len(),
    ensures
        run(step, init, lines.take(n + 1)) == match run(step, init, lines.take(n)) {
            Err(e) => Err(e),
            Ok(state) => step(state, lines[n]),
        },
{
    assert(lines.take(n + 1).drop_last() == lines.take(n));
    assert(lines.take(n + 1).last() == lines[n]);
}

/// Over one line, the run is one step.
pub proof fn lemma_run_one<S>(
    step: spec_fn(S, KeywordParamView) -> Result<S, ParseErrorView>,
    init: S,
    a: KeywordParamView,
)
    ensures
        run(step, init, seq![a]) == step(init, a),
{
    reveal_with_fuel(run, 2);
    assert(seq![a].drop_last() =~= Seq::<KeywordParamView>::empty());
}

/// Over lines and one more, the run is the run over the lines and one step.
pub proof fn lemma_run_push<S>(
    step: spec_fn(S, KeywordParamView) -> Result<S, ParseErrorView>,
    init: S,
    lines: Seq<KeywordParamView>,
    a: KeywordParamView,
)
    ensures
        run(step, init, lines.push(a)) == match run(step, init, lines) {
            Err(e) => Err(e),
            Ok(state) => step(state, a),
        },
{
    assert(lines.push(a).drop_last() =~= lines);
}

/// A run over two texts in a row is the run over the second from where the
/// run over the first ends.
pub proof fn lemma_run_concat<S>(
    step: spec_fn(S, KeywordParamView) -> Result<S, ParseErrorView>,
    init: S,
    first: Seq<KeywordParamView>,
    second: Seq<KeywordParamView>,
)
    ensures
        run(step, init, first + second) == match run(step, init, first) {
            Err(e) => Err(e),
            Ok(state) => run(step, state, second),
        },
    decreases second.len(),
{
    if second.len() == 0 {
        assert(first + second =~= first);
    } else {
        lemma_run_concat(step, init, first, second.drop_last());
        assert((first + second).drop_last() =~= first + second.drop_last());
        assert((first + second).last() == second.last());
    }
}

/// Lines that each add one item to a list of the state, run one behind the
/// other, add the items in their order: where `put` sets the list of a state
/// and each line adds its item to it, the run over the lines adds them all.
pub proof fn lemma_run_each<S, A>(
    step: spec_fn(S, KeywordParamView) -> Result<S, ParseErrorView>,
    put: spec_fn(S, Seq<A>) -> S,
    state: S,
    held: Seq<A>,
    items: Seq<A>,
    line: spec_fn(A) -> KeywordParamView,
)
    requires
        forall|list: Seq<A>, i: int|
            0 <= i < items.len() ==> #[trigger] step(put(state, list), line(items[i])) == Ok::<
                S,
                ParseErrorView,
            >(put(state, list.push(items[i]))),
    ensures
        run(step, put(state, held), items.map_values(line)) == Ok::<S, ParseErrorView>(
            put(state, held + items),
        ),
    decreases items.len(),
{
    let lines = items.map_values(line);
    if items.len() == 0 {
        assert(held + items =~= held);
    } else {
        let first = items.drop_last();
        assert forall|list: Seq<A>, i: int| 0 <= i < first.len() implies #[trigger] step(
            put(state, list),
            line(first[i]),
        ) == Ok::<S, ParseErrorView>(put(state, list.push(first[i]))) by {
            assert(first[i] == items[i]);
        }
        lemma_run_each(step, put, state, held, first, line);
        assert(lines.drop_last() =~= first.map_values(line));
        assert(lines.last() == line(items.last()));
        assert(step(put(state, held + first), line(items[items.len() - 1])) == Ok::<
            S,
            ParseErrorView,
        >(put(state, (held + first).push(items[items.len() - 1]))));
        assert((held + first).push(items.last()) =~= held + items);
    }
}

/// The statement of an attribute: the keyword `ATTRIBUTE` and its parameter.
pub open spec fn attribute_statement(a: AttributeView) -> KeywordParamView {
    KeywordParamView { keyword: "ATTRIBUTE"@, parameter: attribute_text(a) }
}

/// Whether each of the attributes `v` can be written and read back.
pub open spec fn attributes_ok(v: Seq<AttributeView>) -> bool {
    forall|i: int| 0 <= i < v.len() ==> attribute_ok(#[trigger] v[i])
}

/// A number alone on its line is read back.
pub proof fn lemma_whole_number(text: Seq<char>)
    requires
        is_number(text),
    ensures
        whole(spec_number(text)) == Ok::<Seq<char>, ParseErrorView>(text),
        one_line(text),
{
    lemma_number_round_trip(text, Seq::empty());
    assert(text + Seq::<char>::empty() =~= text);
    lemma_number_one_line(text);
}

/// A string alone on its line is read back, as a string and as a part name.
pub proof fn lemma_whole_string(s: Seq<char>)
    requires
        is_writable(s),
    ensures
        whole(spec_string(string_text(s))) == Ok::<Seq<char>, ParseErrorView>(s),
        whole(spec_part_name(string_text(s))) == Ok::<Seq<char>, ParseErrorView>(s),
        one_line(string_text(s)),
{
    lemma_string_round_trip(s, Seq::empty());
    lemma_part_name_round_trip(s);
    assert(string_text(s) + Seq::<char>::empty() =~= string_text(s));
    lemma_string_one_line(s);
}

/// A pair of coordinates alone on its line is read back.
pub proof fn lemma_whole_x_y(v: XYRefView)
    requires
        x_y_ok(v),
    ensures
        whole(spec_x_y_ref(x_y_text(v))) == Ok::<XYRefView, ParseErrorView>(v),
        one_line(x_y_text(v)),
{
    lemma_x_y_round_trip(v, Seq::empty());
    assert(x_y_text(v) + Seq::<char>::empty() =~= x_y_text(v));
    lemma_x_y_one_line(v);
}

/// An attribute alone on its line is read back.
pub proof fn lemma_whole_attribute(v: AttributeView)
    requires
        attribute_ok(v),
    ensures
        whole(spec_attrib_ref(attribute_text(v))) == Ok::<AttributeView, ParseErrorView>(v),
        one_line(attribute_text(v)),
{
    lemma_attribute_round_trip(v, Seq::empty());
    assert(attribute_text(v) + Seq::<char>::empty() =~= attribute_text(v));
    lemma_attribute_one_line(v);
}

/// Attributes that are written one per line are read as their statements.
pub proof fn lemma_reads_attributes(v: Seq<AttributeView>)
    requires
        attributes_ok(v),
    ensures
        reads_as(attributes_text(v), v.map_values(|a: AttributeView| attribute_statement(a))),
{
    reveal_strlit("ATTRIBUTE ");
    reveal_strlit("ATTRIBUTE");
    reveal_strlit(" ");
    lemma_keyword(Keyword::Attribute);
    assert("ATTRIBUTE "@ =~= "ATTRIBUTE"@ + " "@);
    assert forall|i: int| 0 <= i < v.len() implies reads_as(
        attribute_line(#[trigger] v[i]),
        seq![attribute_statement(v[i])],
    ) by {
        lemma_whole_attribute(v[i]);
        lemma_reads_keyword_line("ATTRIBUTE "@, "ATTRIBUTE"@, attribute_text(v[i]));
    }
    lemma_reads_each(
        v,
        |a: AttributeView| attribute_line(a),
        |a: AttributeView| attribute_statement(a),
    );
}

/// The run over the statement of a field that may be missing is one step,
/// or none where the field is missing.
pub proof fn lemma_run_opt<S>(
    step: spec_fn(S, KeywordParamView) -> Result<S, ParseErrorView>,
    state: S,
    keyword: Seq<char>,
    text: Option<Seq<char>>,
    after: S,
)
    requires
        text matches Some(t) ==> step(state, KeywordParamView { keyword, parameter: t }) == Ok::<
            S,
            ParseErrorView,
        >(after),
        text is None ==> after == state,
    ensures
        run(step, state, opt_statement(keyword, text)) == Ok::<S, ParseErrorView>(after),
{
    match text {
        Some(t) => {
            lemma_run_one(step, state, KeywordParamView { keyword, parameter: t });
        },
        None => {},
    }
}

/// An unsigned integer of 16 bits alone on its line is read back.
pub proof fn lemma_whole_count(n: u16)
    ensures
        whole(spec_p_integer(decimal_digits(n as nat))) == Ok::<u16, ParseErrorView>(n),
        one_line(decimal_digits(n as nat)),
{
    lemma_p_integer_round_trip(n, Seq::empty());
    assert(decimal_digits(n as nat) + Seq::<char>::empty() =~= decimal_digits(n as nat));
    lemma_decimal_one_line(n as nat);
}

} // verus!
