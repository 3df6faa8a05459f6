//! The parsed file: its sections, each decoded by the builder that its name
//! selects.

use vstd::prelude::*;
use crate::error::{agrees_whole, ParseError, ParseErrorView, SectionKind};
use crate::lex::str_eq;
use crate::parser::{
    lemma_section_consumes, Section, sections, SectionView, spec_more_sections, spec_section,
    spec_sections,
};
use crate::parser::written::{lemma_skip_no_breaks, skip_breaks, writes_section};
use crate::sections::board::{
    Board, board_ok, board_text, BoardView, lemma_board_round_trip, spec_parse_board,
};
use crate::sections::components::{
    Component, components_ok, components_text, ComponentView, lemma_components_round_trip,
    parse_components, spec_parse_components,
};
use crate::sections::devices::{
    Device, devices_ok, devices_text, DeviceView, lemma_devices_round_trip, parse_devices,
    spec_parse_devices,
};
use crate::sections::header::{
    Header, header_ok, header_text, HeaderView, lemma_header_round_trip, spec_parse_header,
};
use crate::sections::pads::{
    lemma_pads_round_trip, Pad, pads_ok, pads_text, PadView, parse_pads, spec_parse_pads,
};
use crate::sections::padstacks::{
    lemma_padstacks_round_trip, Padstacks, padstacks_ok, padstacks_text, PadstacksView,
    spec_parse_padstacks,
};
use crate::sections::shapes::{
    lemma_shapes_round_trip, parse_shapes, Shape, shapes_ok, shapes_text, ShapeView,
    spec_parse_shapes,
};
use crate::sections::signals::{
    lemma_signals_round_trip, Signals, signals_ok, signals_text, SignalsView, spec_parse_signals,
};
use crate::sections::unknown::{
    lemma_unknown_round_trip, Unknown, unknown_ok, unknown_text, UnknownView,
};
use crate::serialization::{
    crlf, join, join_lines, lemma_join_lines_front, render_all, ToGencadString,
};

verus! {

/// A section in the GenCAD file.
#[derive(Debug, Clone, PartialEq, Eq)]
pub enum ParsedSection {
    Header(Header),
    Board(Board),
    Pads(Vec<Pad>),
    Padstacks(Padstacks),
    Shapes(Vec<Shape>),
    Components(Vec<Component>),
    Devices(Vec<Device>),
    Signals(Signals),
    Unknown(Unknown),
}

/// The mathematical content of a [`ParsedSection`].
pub ghost enum ParsedSectionView {
    Header(HeaderView),
    Board(BoardView),
    Pads(Seq<PadView>),
    Padstacks(PadstacksView),
    Shapes(Seq<ShapeView>),
    Components(Seq<ComponentView>),
    Devices(Seq<DeviceView>),
    Signals(SignalsView),
    Unknown(UnknownView),
}

impl DeepView for ParsedSection {
    type V = ParsedSectionView;

    open spec fn deep_view(&self) -> ParsedSectionView {
        match self {
            ParsedSection::Header(v) => ParsedSectionView::Header(v.deep_view()),
            ParsedSection::Board(v) => ParsedSectionView::Board(v.deep_view()),
            ParsedSection::Pads(v) => ParsedSectionView::Pads(v.deep_view()),
            ParsedSection::Padstacks(v) => ParsedSectionView::Padstacks(v.deep_view()),
            ParsedSection::Shapes(v) => ParsedSectionView::Shapes(v.deep_view()),
            ParsedSection::Components(v) => ParsedSectionView::Components(v.deep_view()),
            ParsedSection::Devices(v) => ParsedSectionView::Devices(v.deep_view()),
            ParsedSection::Signals(v) => ParsedSectionView::Signals(v.deep_view()),
            ParsedSection::Unknown(v) => ParsedSectionView::Unknown(v.deep_view()),
        }
    }
}

/// A fully parsed GenCAD file.
#[derive(Debug, Clone, PartialEq, Eq)]
pub struct ParsedGencadFile {
    /// The parsed sections of the file.
    pub sections: Vec<ParsedSection>,
}

impl DeepView for ParsedGencadFile {
    type V = Seq<ParsedSectionView>;

    open spec fn deep_view(&self) -> Seq<ParsedSectionView> {
        self.sections.deep_view()
    }
}

/// The kind of the section named `name`; `None` for a name that the library
/// does not interpret.
pub open spec fn spec_section_kind(name: Seq<char>) -> Option<SectionKind> {
    if name == "HEADER"@ {
        Some(SectionKind::Header)
    } else if name == "BOARD"@ {
        Some(SectionKind::Board)
    } else if name == "PADS"@ {
        Some(SectionKind::Pads)
    } else if name == "PADSTACKS"@ {
        Some(SectionKind::Padstacks)
    } else if name == "SHAPES"@ {
        Some(SectionKind::Shapes)
    } else if name == "COMPONENTS"@ {
        Some(SectionKind::Components)
    } else if name == "DEVICES"@ {
        Some(SectionKind::Devices)
    } else if name == "SIGNALS"@ {
        Some(SectionKind::Signals)
    } else {
        None
    }
}

/// The decoded section `s`. A section under a name that the library does not
/// interpret is kept as it is, and is no error.
#[verifier::opaque]
pub open spec fn spec_build_section(s: SectionView) -> Result<ParsedSectionView, ParseErrorView> {
    let lines = s.parameters;
    match spec_section_kind(s.name) {
        Some(SectionKind::Header) => match spec_parse_header(lines) {
            Ok(v) => Ok(ParsedSectionView::Header(v)),
            Err(e) => Err(e),
        },
        Some(SectionKind::Board) => match spec_parse_board(lines) {
            Ok(v) => Ok(ParsedSectionView::Board(v)),
            Err(e) => Err(e),
        },
        Some(SectionKind::Pads) => match spec_parse_pads(lines) {
            Ok(v) => Ok(ParsedSectionView::Pads(v)),
            Err(e) => Err(e),
        },
        Some(SectionKind::Padstacks) => match spec_parse_padstacks(lines) {
            Ok(v) => Ok(ParsedSectionView::Padstacks(v)),
            Err(e) => Err(e),
        },
        Some(SectionKind::Shapes) => match spec_parse_shapes(lines) {
            Ok(v) => Ok(ParsedSectionView::Shapes(v)),
            Err(e) => Err(e),
        },
        Some(SectionKind::Components) => match spec_parse_components(lines) {
            Ok(v) => Ok(ParsedSectionView::Components(v)),
            Err(e) => Err(e),
        },
        Some(SectionKind::Devices) => match spec_parse_devices(lines) {
            Ok(v) => Ok(ParsedSectionView::Devices(v)),
            Err(e) => Err(e),
        },
        Some(SectionKind::Signals) => match spec_parse_signals(lines) {
            Ok(v) => Ok(ParsedSectionView::Signals(v)),
            Err(e) => Err(e),
        },
        None => Ok(ParsedSectionView::Unknown(UnknownView { name: s.name, statements: lines })),
    }
}

/// The decoded sections `sections`, in their order, or the error of the
/// first that cannot be decoded.
pub open spec fn spec_build_sections(sections: Seq<SectionView>) -> Result<
    Seq<ParsedSectionView>,
    ParseErrorView,
>
    decreases sections.len(),
{
    if sections.len() == 0 {
        Ok(Seq::empty())
    } else {
        match spec_build_sections(sections.drop_last()) {
            Err(e) => Err(e),
            Ok(built) => match spec_build_section(sections.last()) {
                Err(e) => Err(e),
                Ok(section) => Ok(built.push(section)),
            },
        }
    }
}

/// The document that the file `input` holds: the file is split into
/// sections, and each is decoded. The first error ends it all.
pub open spec fn spec_parse_file(input: Seq<char>) -> Result<
    Seq<ParsedSectionView>,
    ParseErrorView,
> {
    match spec_sections(input) {
        Err(e) => Err(e),
        Ok(sections) => spec_build_sections(sections),
    }
}

/// An error among the first `n` sections is the error of all sections.
pub proof fn lemma_build_sections_error(sections: Seq<SectionView>, n: int)
    requires
        0 <= n <= sections.len(),
    ensures
        spec_build_sections(sections.take(n)) is Err ==> spec_build_sections(sections)
            == spec_build_sections(sections.take(n)),
    decreases sections.len() - n,
{
    if n < sections.len() {
        assert(sections.take(n + 1).drop_last() == sections.take(n));
        lemma_build_sections_error(sections, n + 1);
    } else {
        assert(sections.take(n) == sections);
    }
}

impl SectionKind {
    /// The kind of the section named `name`.
    pub fn of(name: &str) -> (r: Option<SectionKind>)
        ensures
            r == spec_section_kind(name@),
    {
        if str_eq(name, "HEADER") {
            Some(SectionKind::Header)
        } else if str_eq(name, "BOARD") {
            Some(SectionKind::Board)
        } else if str_eq(name, "PADS") {
            Some(SectionKind::Pads)
        } else if str_eq(name, "PADSTACKS") {
            Some(SectionKind::Padstacks)
        } else if str_eq(name, "SHAPES") {
            Some(SectionKind::Shapes)
        } else if str_eq(name, "COMPONENTS") {
            Some(SectionKind::Components)
        } else if str_eq(name, "DEVICES") {
            Some(SectionKind::Devices)
        } else if str_eq(name, "SIGNALS") {
            Some(SectionKind::Signals)
        } else {
            None
        }
    }
}

impl ParsedSection {
    /// Decodes the section `section` with the builder that its name selects.
    pub fn build(section: &Section) -> (r: Result<ParsedSection, ParseError>)
        ensures
            agrees_whole(r, spec_build_section(section.deep_view())),
    {
        reveal(spec_build_section);
        let params = section.parameters.as_slice();
        assert(params.deep_view() =~= section.parameters.deep_view());
        match SectionKind::of(section.name) {
            Some(SectionKind::Header) => Ok(ParsedSection::Header(Header::new(params)?)),
            Some(SectionKind::Board) => Ok(ParsedSection::Board(Board::new(params)?)),
            Some(SectionKind::Pads) => Ok(ParsedSection::Pads(parse_pads(params)?)),
            Some(SectionKind::Padstacks) => Ok(ParsedSection::Padstacks(Padstacks::new(params)?)),
            Some(SectionKind::Shapes) => Ok(ParsedSection::Shapes(parse_shapes(params)?)),
            Some(SectionKind::Components) => Ok(
                ParsedSection::Components(parse_components(params)?),
            ),
            Some(SectionKind::Devices) => Ok(ParsedSection::Devices(parse_devices(params)?)),
            Some(SectionKind::Signals) => Ok(ParsedSection::Signals(Signals::new(params)?)),
            None => Ok(ParsedSection::Unknown(Unknown::new(section.name, params)?)),
        }
    }
}

impl ParsedGencadFile {
    /// Parses the text of a GenCAD file into a structured format.
    pub fn new(input: &str) -> (r: Result<ParsedGencadFile, ParseError>)
        ensures
            agrees_whole(r, spec_parse_file(input@)),
    {
        let unparsed = sections(input)?;
        let ghost all = unparsed.deep_view();
        let mut built: Vec<ParsedSection> = Vec::new();
        assert(built.deep_view() =~= Seq::empty());
        let mut i: usize = 0;
        while i < unparsed.len()
            invariant
                0 <= i <= unparsed.len(),
                all == unparsed.deep_view(),
                spec_sections(input@) == Ok::<Seq<SectionView>, ParseErrorView>(all),
                spec_build_sections(all.take(i as int)) == Ok::<
                    Seq<ParsedSectionView>,
                    ParseErrorView,
                >(built.deep_view()),
            decreases unparsed.len() - i,
        {
            proof {
                assert(all.take(i + 1).drop_last() == all.take(i as int));
                assert(all.take(i + 1).last() == unparsed[i as int].deep_view());
                lemma_build_sections_error(all, i + 1);
            }
            let ghost before = built.deep_view();
            match ParsedSection::build(&unparsed[i]) {
                Ok(section) => {
                    built.push(section);
                    assert(built.deep_view() =~= before.push(section.deep_view()));
                    assert(spec_build_sections(all.take(i + 1)) == Ok::<
                        Seq<ParsedSectionView>,
                        ParseErrorView,
                    >(built.deep_view()));
                },
                Err(e) => {
                    assert(spec_build_sections(all.take(i + 1)) == Err::<
                        Seq<ParsedSectionView>,
                        ParseErrorView,
                    >(e.deep_view()));
                    return Err(e);
                },
            }
            i += 1;
        }
        assert(all.take(i as int) == all);
        Ok(ParsedGencadFile { sections: built })
    }
}

/// The text of a file whose sections have the texts `sections`: the
/// sections line by line, and an end of line behind the last.
pub open spec fn file_text(sections: Seq<Seq<char>>) -> Seq<char> {
    join_lines(sections) + crlf()
}

/// Whether the text `text` of a section is read back as `parsed`: it is
/// split into the lines of a section from which the builder of its name makes
/// `parsed`.
pub open spec fn section_round_trips(text: Seq<char>, parsed: ParsedSectionView) -> bool {
    exists|section: SectionView|
        writes_section(text, section) && #[trigger] spec_build_section(section) == Ok::<
            ParsedSectionView,
            ParseErrorView,
        >(parsed)
}

/// The sections that follow in a written file are found one by one.
proof fn lemma_more_sections_written(
    found: Seq<SectionView>,
    texts: Seq<Seq<char>>,
    sections: Seq<SectionView>,
)
    requires
        texts.len() == sections.len(),
        texts.len() > 0,
        forall|i: int| 0 <= i < texts.len() ==> writes_section(#[trigger] texts[i], sections[i]),
    ensures
        spec_more_sections(found, file_text(texts)) == Ok::<Seq<SectionView>, ParseErrorView>(
            found + sections,
        ),
        file_text(texts)[0] == '$',
    decreases texts.len(),
{
    let none = Seq::<char>::empty();
    assert(writes_section(texts[0], sections[0]));
    if texts.len() == 1 {
        let u = texts[0] + crlf() + none;
        assert(file_text(texts) =~= u);
        assert(spec_section(u) == Ok::<(Seq<char>, SectionView), ParseErrorView>(
            (skip_breaks(none), sections[0]),
        ));
        lemma_skip_no_breaks(none);
        lemma_section_consumes(u);
        assert(u[0] == texts[0][0]);
        assert(found.push(sections[0]) =~= found + sections);
        assert(spec_more_sections(found.push(sections[0]), none) == Ok::<
            Seq<SectionView>,
            ParseErrorView,
        >(found.push(sections[0])));
        assert(spec_more_sections(found, u) == spec_more_sections(
            found.push(sections[0]),
            none,
        ));
    } else {
        let others = texts.skip(1);
        let other_sections = sections.skip(1);
        assert forall|i: int| 0 <= i < others.len() implies writes_section(
            #[trigger] others[i],
            other_sections[i],
        ) by {
            assert(others[i] == texts[i + 1]);
            assert(writes_section(texts[i + 1], sections[i + 1]));
        }
        lemma_more_sections_written(found.push(sections[0]), others, other_sections);
        lemma_join_lines_front(texts);
        let rest = file_text(others);
        let u = texts[0] + crlf() + rest;
        assert(file_text(texts) =~= u);
        assert(spec_section(u) == Ok::<(Seq<char>, SectionView), ParseErrorView>(
            (skip_breaks(rest), sections[0]),
        ));
        lemma_skip_no_breaks(rest);
        lemma_section_consumes(u);
        assert(u[0] == texts[0][0]);
        assert(found.push(sections[0]) + other_sections =~= found + sections);
        assert(spec_more_sections(found, u) == spec_more_sections(
            found.push(sections[0]),
            rest,
        ));
    }
}

/// A written file is split into the sections it was written from.
pub proof fn lemma_sections_written(texts: Seq<Seq<char>>, sections: Seq<SectionView>)
    requires
        texts.len() == sections.len(),
        texts.len() > 0,
        forall|i: int| 0 <= i < texts.len() ==> writes_section(#[trigger] texts[i], sections[i]),
    ensures
        spec_sections(file_text(texts)) == Ok::<Seq<SectionView>, ParseErrorView>(sections),
{
    let none = Seq::<SectionView>::empty();
    lemma_more_sections_written(none, texts, sections);
    let u = file_text(texts);
    lemma_section_consumes(u);
    assert(none + sections =~= sections);
    assert(u.len() > 0);
    match spec_section(u) {
        Ok((rest, section)) => {
            assert(none.push(section) =~= seq![section]);
        },
        Err(_) => {},
    }
}

/// The builders make of the sections, one by one, what they make of each.
proof fn lemma_build_each(sections: Seq<SectionView>, parsed: Seq<ParsedSectionView>)
    requires
        sections.len() == parsed.len(),
        forall|i: int|
            0 <= i < sections.len() ==> spec_build_section(#[trigger] sections[i]) == Ok::<
                ParsedSectionView,
                ParseErrorView,
            >(parsed[i]),
    ensures
        spec_build_sections(sections) == Ok::<Seq<ParsedSectionView>, ParseErrorView>(parsed),
    decreases sections.len(),
{
    if sections.len() == 0 {
        assert(parsed =~= Seq::empty());
    } else {
        let first = sections.drop_last();
        let first_parsed = parsed.drop_last();
        assert forall|i: int| 0 <= i < first.len() implies spec_build_section(
            #[trigger] first[i],
        ) == Ok::<ParsedSectionView, ParseErrorView>(first_parsed[i]) by {
            assert(first[i] == sections[i]);
        }
        lemma_build_each(first, first_parsed);
        assert(spec_build_section(sections[sections.len() - 1]) == Ok::<
            ParsedSectionView,
            ParseErrorView,
        >(parsed[sections.len() - 1]));
        assert(first_parsed.push(parsed.last()) =~= parsed);
    }
}

/// A file is read back from its text: where the text of each section is
/// read back as that section, the text of the file is read back as the
/// sections, in their order.
pub proof fn lemma_file_round_trip(texts: Seq<Seq<char>>, parsed: Seq<ParsedSectionView>)
    requires
        texts.len() == parsed.len(),
        texts.len() > 0,
        forall|i: int| 0 <= i < texts.len() ==> section_round_trips(#[trigger] texts[i], parsed[i]),
    ensures
        spec_parse_file(file_text(texts)) == Ok::<Seq<ParsedSectionView>, ParseErrorView>(parsed),
{
    let sections = Seq::new(
        texts.len(),
        |i: int|
            choose|section: SectionView|
                writes_section(texts[i], section) && #[trigger] spec_build_section(section)
                    == Ok::<ParsedSectionView, ParseErrorView>(parsed[i]),
    );
    assert forall|i: int| 0 <= i < texts.len() implies writes_section(
        #[trigger] texts[i],
        sections[i],
    ) && spec_build_section(sections[i]) == Ok::<ParsedSectionView, ParseErrorView>(parsed[i]) by {
        assert(section_round_trips(texts[i], parsed[i]));
    }
    lemma_sections_written(texts, sections);
    lemma_build_each(sections, parsed);
}

/// The text of a section.
pub open spec fn parsed_section_text(v: ParsedSectionView) -> Seq<char> {
    match v {
        ParsedSectionView::Header(h) => header_text(h),
        ParsedSectionView::Board(b) => board_text(b),
        ParsedSectionView::Pads(p) => pads_text(p),
        ParsedSectionView::Padstacks(p) => padstacks_text(p),
        ParsedSectionView::Shapes(s) => shapes_text(s),
        ParsedSectionView::Components(c) => components_text(c),
        ParsedSectionView::Devices(d) => devices_text(d),
        ParsedSectionView::Signals(s) => signals_text(s),
        ParsedSectionView::Unknown(u) => unknown_text(u),
    }
}

/// The text of a document: its sections in their order, and an end of line
/// behind the last.
pub open spec fn document_text(v: Seq<ParsedSectionView>) -> Seq<char> {
    file_text(v.map_values(|s: ParsedSectionView| parsed_section_text(s)))
}

impl ToGencadString for ParsedSection {
    open spec fn gencad(&self) -> Seq<char> {
        parsed_section_text(self.deep_view())
    }

    fn to_gencad_string(&self) -> (r: String) {
        match self {
            ParsedSection::Header(v) => v.to_gencad_string(),
            ParsedSection::Board(v) => v.to_gencad_string(),
            ParsedSection::Pads(v) => v.to_gencad_string(),
            ParsedSection::Padstacks(v) => v.to_gencad_string(),
            ParsedSection::Shapes(v) => v.to_gencad_string(),
            ParsedSection::Components(v) => v.to_gencad_string(),
            ParsedSection::Devices(v) => v.to_gencad_string(),
            ParsedSection::Signals(v) => v.to_gencad_string(),
            ParsedSection::Unknown(v) => v.to_gencad_string(),
        }
    }
}

impl ToGencadString for ParsedGencadFile {
    open spec fn gencad(&self) -> Seq<char> {
        document_text(self.deep_view())
    }

    fn to_gencad_string(&self) -> (r: String) {
        let sections = render_all(&self.sections);
        assert(sections.deep_view() =~= self.deep_view().map_values(
            |s: ParsedSectionView| parsed_section_text(s),
        ));
        let mut out = join(&sections);
        out.push('\r');
        out.push('\n');
        assert(out@ =~= document_text(self.deep_view()));
        out
    }
}

/// A document is read back from its text: where the text of each of its
/// sections is read back as that section, the text of the document is read
/// back as the document.
pub proof fn lemma_document_round_trip(v: Seq<ParsedSectionView>)
    requires
        v.len() > 0,
        forall|i: int|
            0 <= i < v.len() ==> section_round_trips(parsed_section_text(#[trigger] v[i]), v[i]),
    ensures
        spec_parse_file(document_text(v)) == Ok::<Seq<ParsedSectionView>, ParseErrorView>(v),
{
    let texts = v.map_values(|s: ParsedSectionView| parsed_section_text(s));
    assert forall|i: int| 0 <= i < texts.len() implies section_round_trips(
        #[trigger] texts[i],
        v[i],
    ) by {
        assert(section_round_trips(parsed_section_text(v[i]), v[i]));
    }
    lemma_file_round_trip(texts, v);
}

/// `HEADER` is the name of a section of its kind, and the marks of the
/// section are the marks before the name.
pub proof fn lemma_section_header()
    ensures
        spec_section_kind("HEADER"@) == Some(SectionKind::Header),
        crate::parser::written::name_ok("HEADER"@),
        "$HEADER"@ == "$"@ + "HEADER"@,
        "$ENDHEADER"@ == "$END"@ + "HEADER"@,
{
    reveal_strlit("$");
    reveal_strlit("$END");
    reveal_strlit("$HEADER");
    reveal_strlit("$ENDHEADER");
    reveal_strlit("HEADER");
    assert("$HEADER"@ =~= "$"@ + "HEADER"@);
    assert("$ENDHEADER"@ =~= "$END"@ + "HEADER"@);
}

/// `BOARD` is the name of a section of its kind, and the marks of the
/// section are the marks before the name.
pub proof fn lemma_section_board()
    ensures
        spec_section_kind("BOARD"@) == Some(SectionKind::Board),
        crate::parser::written::name_ok("BOARD"@),
        "$BOARD"@ == "$"@ + "BOARD"@,
        "$ENDBOARD"@ == "$END"@ + "BOARD"@,
{
    reveal_strlit("$");
    reveal_strlit("$END");
    reveal_strlit("$BOARD");
    reveal_strlit("$ENDBOARD");
    reveal_strlit("HEADER");
    reveal_strlit("BOARD");
    assert("BOARD"@.len() != "HEADER"@.len());
    assert("$BOARD"@ =~= "$"@ + "BOARD"@);
    assert("$ENDBOARD"@ =~= "$END"@ + "BOARD"@);
}

/// `PADS` is the name of a section of its kind, and the marks of the
/// section are the marks before the name.
pub proof fn lemma_section_pads()
    ensures
        spec_section_kind("PADS"@) == Some(SectionKind::Pads),
        crate::parser::written::name_ok("PADS"@),
        "$PADS"@ == "$"@ + "PADS"@,
        "$ENDPADS"@ == "$END"@ + "PADS"@,
{
    reveal_strlit("$");
    reveal_strlit("$END");
    reveal_strlit("$PADS");
    reveal_strlit("$ENDPADS");
    reveal_strlit("HEADER");
    reveal_strlit("BOARD");
    reveal_strlit("PADS");
    assert("PADS"@.len() != "HEADER"@.len());
    assert("PADS"@.len() != "BOARD"@.len());
    assert("$PADS"@ =~= "$"@ + "PADS"@);
    assert("$ENDPADS"@ =~= "$END"@ + "PADS"@);
}

/// `PADSTACKS` is the name of a section of its kind, and the marks of the
/// section are the marks before the name.
pub proof fn lemma_section_padstacks()
    ensures
        spec_section_kind("PADSTACKS"@) == Some(SectionKind::Padstacks),
        crate::parser::written::name_ok("PADSTACKS"@),
        "$PADSTACKS"@ == "$"@ + "PADSTACKS"@,
        "$ENDPADSTACKS"@ == "$END"@ + "PADSTACKS"@,
{
    reveal_strlit("$");
    reveal_strlit("$END");
    reveal_strlit("$PADSTACKS");
    reveal_strlit("$ENDPADSTACKS");
    reveal_strlit("HEADER");
    reveal_strlit("BOARD");
    reveal_strlit("PADS");
    reveal_strlit("PADSTACKS");
    assert("PADSTACKS"@.len() != "HEADER"@.len());
    assert("PADSTACKS"@.len() != "BOARD"@.len());
    assert("PADSTACKS"@.len() != "PADS"@.len());
    assert("$PADSTACKS"@ =~= "$"@ + "PADSTACKS"@);
    assert("$ENDPADSTACKS"@ =~= "$END"@ + "PADSTACKS"@);
}

/// `SHAPES` is the name of a section of its kind, and the marks of the
/// section are the marks before the name.
pub proof fn lemma_section_shapes()
    ensures
        spec_section_kind("SHAPES"@) == Some(SectionKind::Shapes),
        crate::parser::written::name_ok("SHAPES"@),
        "$SHAPES"@ == "$"@ + "SHAPES"@,
        "$ENDSHAPES"@ == "$END"@ + "SHAPES"@,
{
    reveal_strlit("$");
    reveal_strlit("$END");
    reveal_strlit("$SHAPES");
    reveal_strlit("$ENDSHAPES");
    reveal_strlit("HEADER");
    reveal_strlit("BOARD");
    reveal_strlit("PADS");
    reveal_strlit("PADSTACKS");
    reveal_strlit("SHAPES");
    assert("SHAPES"@[0] != "HEADER"@[0]);
    assert("SHAPES"@.len() != "BOARD"@.len());
    assert("SHAPES"@.len() != "PADS"@.len());
    assert("SHAPES"@.len() != "PADSTACKS"@.len());
    assert("$SHAPES"@ =~= "$"@ + "SHAPES"@);
    assert("$ENDSHAPES"@ =~= "$END"@ + "SHAPES"@);
}

/// `COMPONENTS` is the name of a section of its kind, and the marks of the
/// section are the marks before the name.
pub proof fn lemma_section_components()
    ensures
        spec_section_kind("COMPONENTS"@) == Some(SectionKind::Components),
        crate::parser::written::name_ok("COMPONENTS"@),
        "$COMPONENTS"@ == "$"@ + "COMPONENTS"@,
        "$ENDCOMPONENTS"@ == "$END"@ + "COMPONENTS"@,
{
    reveal_strlit("$");
    reveal_strlit("$END");
    reveal_strlit("$COMPONENTS");
    reveal_strlit("$ENDCOMPONENTS");
    reveal_strlit("HEADER");
    reveal_strlit("BOARD");
    reveal_strlit("PADS");
    reveal_strlit("PADSTACKS");
    reveal_strlit("SHAPES");
    reveal_strlit("COMPONENTS");
    assert("COMPONENTS"@.len() != "HEADER"@.len());
    assert("COMPONENTS"@.len() != "BOARD"@.len());
    assert("COMPONENTS"@.len() != "PADS"@.len());
    assert("COMPONENTS"@.len() != "PADSTACKS"@.len());
    assert("COMPONENTS"@.len() != "SHAPES"@.len());
    assert("$COMPONENTS"@ =~= "$"@ + "COMPONENTS"@);
    assert("$ENDCOMPONENTS"@ =~= "$END"@ + "COMPONENTS"@);
}

/// `DEVICES` is the name of a section of its kind, and the marks of the
/// section are the marks before the name.
pub proof fn lemma_section_devices()
    ensures
        spec_section_kind("DEVICES"@) == Some(SectionKind::Devices),
        crate::parser::written::name_ok("DEVICES"@),
        "$DEVICES"@ == "$"@ + "DEVICES"@,
        "$ENDDEVICES"@ == "$END"@ + "DEVICES"@,
{
    reveal_strlit("$");
    reveal_strlit("$END");
    reveal_strlit("$DEVICES");
    reveal_strlit("$ENDDEVICES");
    reveal_strlit("HEADER");
    reveal_strlit("BOARD");
    reveal_strlit("PADS");
    reveal_strlit("PADSTACKS");
    reveal_strlit("SHAPES");
    reveal_strlit("COMPONENTS");
    reveal_strlit("DEVICES");
    assert("DEVICES"@.len() != "HEADER"@.len());
    assert("DEVICES"@.len() != "BOARD"@.len());
    assert("DEVICES"@.len() != "PADS"@.len());
    assert("DEVICES"@.len() != "PADSTACKS"@.len());
    assert("DEVICES"@.len() != "SHAPES"@.len());
    assert("DEVICES"@.len() != "COMPONENTS"@.len());
    assert("$DEVICES"@ =~= "$"@ + "DEVICES"@);
    assert("$ENDDEVICES"@ =~= "$END"@ + "DEVICES"@);
}

/// `SIGNALS` is the name of a section of its kind, and the marks of the
/// section are the marks before the name.
pub proof fn lemma_section_signals()
    ensures
        spec_section_kind("SIGNALS"@) == Some(SectionKind::Signals),
        crate::parser::written::name_ok("SIGNALS"@),
        "$SIGNALS"@ == "$"@ + "SIGNALS"@,
        "$ENDSIGNALS"@ == "$END"@ + "SIGNALS"@,
{
    reveal_strlit("$");
    reveal_strlit("$END");
    reveal_strlit("$SIGNALS");
    reveal_strlit("$ENDSIGNALS");
    reveal_strlit("HEADER");
    reveal_strlit("BOARD");
    reveal_strlit("PADS");
    reveal_strlit("PADSTACKS");
    reveal_strlit("SHAPES");
    reveal_strlit("COMPONENTS");
    reveal_strlit("DEVICES");
    reveal_strlit("SIGNALS");
    assert("SIGNALS"@.len() != "HEADER"@.len());
    assert("SIGNALS"@.len() != "BOARD"@.len());
    assert("SIGNALS"@.len() != "PADS"@.len());
    assert("SIGNALS"@.len() != "PADSTACKS"@.len());
    assert("SIGNALS"@.len() != "SHAPES"@.len());
    assert("SIGNALS"@.len() != "COMPONENTS"@.len());
    assert("SIGNALS"@[0] != "DEVICES"@[0]);
    assert("$SIGNALS"@ =~= "$"@ + "SIGNALS"@);
    assert("$ENDSIGNALS"@ =~= "$END"@ + "SIGNALS"@);
}

/// Whether the section `v` can be written and read back.
pub open spec fn parsed_section_ok(v: ParsedSectionView) -> bool {
    match v {
        ParsedSectionView::Header(h) => header_ok(h),
        ParsedSectionView::Board(b) => board_ok(b),
        ParsedSectionView::Pads(p) => pads_ok(p),
        ParsedSectionView::Padstacks(p) => padstacks_ok(p),
        ParsedSectionView::Shapes(s) => shapes_ok(s),
        ParsedSectionView::Components(c) => components_ok(c),
        ParsedSectionView::Devices(d) => devices_ok(d),
        ParsedSectionView::Signals(s) => signals_ok(s),
        ParsedSectionView::Unknown(u) => unknown_ok(u),
    }
}

/// Whether the document `v` can be written and read back: it has a section,
/// and each of its sections can be written and read back.
pub open spec fn document_ok(v: Seq<ParsedSectionView>) -> bool {
    &&& v.len() > 0
    &&& forall|i: int| 0 <= i < v.len() ==> parsed_section_ok(#[trigger] v[i])
}

/// A section is read back from its text.
pub proof fn lemma_section_round_trip(v: ParsedSectionView)
    requires
        parsed_section_ok(v),
    ensures
        section_round_trips(parsed_section_text(v), v),
{
    match v {
        ParsedSectionView::Header(h) => lemma_header_round_trip(h),
        ParsedSectionView::Board(b) => lemma_board_round_trip(b),
        ParsedSectionView::Pads(p) => lemma_pads_round_trip(p),
        ParsedSectionView::Padstacks(p) => lemma_padstacks_round_trip(p),
        ParsedSectionView::Shapes(s) => lemma_shapes_round_trip(s),
        ParsedSectionView::Components(c) => lemma_components_round_trip(c),
        ParsedSectionView::Devices(d) => lemma_devices_round_trip(d),
        ParsedSectionView::Signals(s) => lemma_signals_round_trip(s),
        ParsedSectionView::Unknown(u) => lemma_unknown_round_trip(u),
    }
}

/// Parsing undoes writing: the text of a document that can be written is
/// parsed as that document.
pub proof fn lemma_parse_written(v: Seq<ParsedSectionView>)
    requires
        document_ok(v),
    ensures
        spec_parse_file(document_text(v)) == Ok::<Seq<ParsedSectionView>, ParseErrorView>(v),
{
    assert forall|i: int| 0 <= i < v.len() implies section_round_trips(
        parsed_section_text(#[trigger] v[i]),
        v[i],
    ) by {
        lemma_section_round_trip(v[i]);
    }
    lemma_document_round_trip(v);
}

/// Writing again changes nothing: the document that the text of a document
/// is parsed as has the same text.
pub proof fn lemma_written_again(v: Seq<ParsedSectionView>)
    requires
        document_ok(v),
    ensures
        spec_parse_file(document_text(v)) matches Ok(w) && document_text(w) == document_text(v),
{
    lemma_parse_written(v);
}

} // verus!
