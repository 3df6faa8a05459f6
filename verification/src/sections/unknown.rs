//! Sections that the library does not interpret. Their lines are kept as
//! they are, so that they can be written out again.

use vstd::prelude::*;
use vstd::string::*;
use crate::error::{ParseError, ParseErrorView};
use crate::parser::{KeywordParam, KeywordParamView, SectionView};
use crate::parser::file::{
    ParsedSectionView, section_round_trips, spec_build_section, spec_section_kind,
};
use crate::parser::written::{
    lemma_empty_section_written, lemma_reads_statements, lemma_section_written, name_ok,
    section_text, statement_ok, writes_section,
};
use crate::serialization::{
    crlf, join, join_lines, lemma_join_three, lemma_join_two, render_all, ToGencadString,
};

verus! {

/// A keyword/parameter pair.
#[derive(Debug, Clone, PartialEq, Eq)]
pub struct Statement {
    /// The keyword that determines how to interpret the parameter.
    pub keyword: String,
    /// The parameter associated with the keyword.
    pub parameter: String,
}

impl DeepView for Statement {
    type V = KeywordParamView;

    open spec fn deep_view(&self) -> KeywordParamView {
        KeywordParamView { keyword: self.keyword@, parameter: self.parameter@ }
    }
}

/// Represents an unknown section in a GenCAD file.
#[derive(Debug, Clone, PartialEq, Eq)]
pub struct Unknown {
    /// The section name.
    pub name: String,
    /// The list of statements in this section.
    pub statements: Vec<Statement>,
}

/// The mathematical content of an [`Unknown`].
pub ghost struct UnknownView {
    pub name: Seq<char>,
    pub statements: Seq<KeywordParamView>,
}

impl DeepView for Unknown {
    type V = UnknownView;

    open spec fn deep_view(&self) -> UnknownView {
        UnknownView { name: self.name@, statements: self.statements.deep_view() }
    }
}

/// The text of a statement: keyword, space, parameter, both as they are.
pub open spec fn statement_text(v: KeywordParamView) -> Seq<char> {
    v.keyword + " "@ + v.parameter
}

/// The text of the statements of a section, one per line.
pub open spec fn statements_text(v: Seq<KeywordParamView>) -> Seq<char> {
    join_lines(v.map_values(|s: KeywordParamView| statement_text(s)))
}

/// The text of an uninterpreted section: the opening line, the statements,
/// the closing line. A section without statements is the two lines alone, with
/// no empty line between them.
pub open spec fn unknown_text(v: UnknownView) -> Seq<char> {
    if v.statements.len() == 0 {
        join_lines(seq!["$"@ + v.name, "$END"@ + v.name])
    } else {
        join_lines(seq!["$"@ + v.name, statements_text(v.statements), "$END"@ + v.name])
    }
}

impl Unknown {
    /// Keeps the lines `params` of the section `name` as they are.
    pub fn new(name: &str, params: &[KeywordParam]) -> (r: Result<Unknown, ParseError>)
        ensures
            r matches Ok(u) && u.deep_view() == (UnknownView {
                name: name@,
                statements: params.deep_view(),
            }),
    {
        let mut statements: Vec<Statement> = Vec::new();
        let mut i: usize = 0;
        while i < params.len()
            invariant
                0 <= i <= params.len(),
                statements.deep_view() == params.deep_view().take(i as int),
            decreases params.len() - i,
        {
            let ghost before = statements.deep_view();
            let statement = Statement {
                keyword: params[i].keyword.to_owned(),
                parameter: params[i].parameter.to_owned(),
            };
            statements.push(statement);
            assert(statements.deep_view() =~= before.push(statement.deep_view()));
            assert(statements.deep_view() =~= params.deep_view().take(i + 1));
            i += 1;
        }
        assert(params.deep_view().take(i as int) == params.deep_view());
        Ok(Unknown { name: name.to_owned(), statements })
    }
}

impl ToGencadString for Statement {
    open spec fn gencad(&self) -> Seq<char> {
        statement_text(self.deep_view())
    }

    fn to_gencad_string(&self) -> (r: String) {
        let mut out = self.keyword.clone();
        out.append(" ");
        out.append(self.parameter.as_str());
        out
    }
}

impl ToGencadString for Vec<Statement> {
    open spec fn gencad(&self) -> Seq<char> {
        statements_text(self.deep_view())
    }

    fn to_gencad_string(&self) -> (r: String) {
        let lines = render_all(self);
        assert(lines.deep_view() =~= self.deep_view().map_values(
            |s: KeywordParamView| statement_text(s),
        ));
        join(&lines)
    }
}

impl ToGencadString for Unknown {
    open spec fn gencad(&self) -> Seq<char> {
        unknown_text(self.deep_view())
    }

    fn to_gencad_string(&self) -> (r: String) {
        let mut lines: Vec<String> = Vec::new();
        let mut start = String::from_str("$");
        start.append(self.name.as_str());
        lines.push(start);
        if self.statements.len() > 0 {
            lines.push(self.statements.to_gencad_string());
        }
        let mut end = String::from_str("$END");
        end.append(self.name.as_str());
        lines.push(end);
        proof {
            if self.statements.len() > 0 {
                assert(lines.deep_view() =~= seq![
                    "$"@ + self.name@,
                    statements_text(self.statements.deep_view()),
                    "$END"@ + self.name@,
                ]);
            } else {
                assert(lines.deep_view() =~= seq!["$"@ + self.name@, "$END"@ + self.name@]);
            }
        }
        join(&lines)
    }
}

/// Whether the section `v` can be written and read back: its name is made
/// of upper case letters and is none of the names that the library
/// interprets, the keywords of its statements are made of upper case letters,
/// and their parameters hold no line break.
pub open spec fn unknown_ok(v: UnknownView) -> bool {
    &&& name_ok(v.name)
    &&& spec_section_kind(v.name) is None
    &&& forall|i: int| 0 <= i < v.statements.len() ==> statement_ok(#[trigger] v.statements[i])
}

/// A section that the library does not interpret is read back from its text
/// as it was: its name and its statements, in their order, character by
/// character.
pub proof fn lemma_unknown_round_trip(v: UnknownView)
    requires
        unknown_ok(v),
    ensures
        writes_section(
            unknown_text(v),
            SectionView { name: v.name, parameters: v.statements },
        ),
        section_round_trips(unknown_text(v), ParsedSectionView::Unknown(v)),
{
    reveal(spec_build_section);
    if v.statements.len() == 0 {
        assert(v.statements =~= Seq::<KeywordParamView>::empty());
        lemma_empty_section_written(v.name);
        lemma_join_two("$"@ + v.name, "$END"@ + v.name);
        assert(unknown_text(v) =~= "$"@ + v.name + crlf() + "$END"@ + v.name);
        assert(SectionView { name: v.name, parameters: v.statements } == SectionView {
            name: v.name,
            parameters: Seq::<KeywordParamView>::empty(),
        });
    } else {
        let body = statements_text(v.statements);
        lemma_reads_statements(v.statements, |s: KeywordParamView| statement_text(s));
        lemma_section_written(v.name, body, v.statements);
        lemma_join_three("$"@ + v.name, body, "$END"@ + v.name);
        assert(unknown_text(v) =~= section_text(v.name, body));
    }
    let section = SectionView { name: v.name, parameters: v.statements };
    assert(spec_build_section(section) == Ok::<ParsedSectionView, ParseErrorView>(
        ParsedSectionView::Unknown(v),
    ));
}

} // verus!
