//! The `HEADER` section.

use vstd::prelude::*;
use vstd::string::*;
use crate::error::{agrees_whole, Field, ParseError, ParseErrorView, SectionKind};
use crate::lex::one_line;
use crate::parser::{KeywordParam, KeywordParamView, SectionView};
use crate::parser::file::{
    lemma_section_header, ParsedSectionView, section_round_trips, spec_build_section,
};
use crate::parser::keyword::{Keyword, lemma_keyword};
use crate::parser::written::{
    concat_all, lemma_reads_empty, lemma_reads_keyword_line, lemma_reads_push,
    lemma_section_written, reads_as, section_text,
};
use crate::sections::{
    attribute_statement, attributes_ok, first_wins, lemma_reads_attributes, lemma_run_concat,
    lemma_run_each, lemma_run_error, lemma_run_one, lemma_run_push, lemma_run_step,
    lemma_whole_attribute, lemma_whole_number, lemma_whole_string, lemma_whole_x_y, run,
    unexpected, whole,
};
use crate::serialization::{
    concat, join, join_lines, lemma_join_three, ToGencadString, wrap_section,
};
use crate::types::attrib_ref::{
    attrib_ref, Attribute, attributes_text, AttributeView, spec_attrib_ref,
};
use crate::types::dimension::{
    dimension, Dimension, dimension_text, lemma_dimension_round_trip,
    lemma_dimension_text_one_line, spec_dimension,
};
use crate::types::number::{is_number, number, Number, spec_number};
use crate::types::string::{is_writable, spec_string, string, string_text};
use crate::types::x_y_ref::{spec_x_y_ref, x_y_ok, x_y_ref, x_y_text, XYRef, XYRefView};

verus! {

/// Represents the `HEADER` section of a GenCAD file.
#[derive(Debug, Clone, PartialEq, Eq)]
pub struct Header {
    /// The GenCAD version.
    pub gencad_version: Number,
    /// The originator of the GenCAD file.
    pub user: String,
    /// The board drawing number or title.
    pub drawing: String,
    /// The revision, issue, or modification status of the board.
    pub revision: String,
    /// The dimensional units used in the file.
    pub units: Dimension,
    /// The CAD coordinates of the origin of the board.
    pub origin: XYRef,
    /// The file change version.
    pub intertrack: Number,
    /// A list of attributes associated with the header.
    pub attributes: Vec<Attribute>,
}

/// The mathematical content of a [`Header`].
pub ghost struct HeaderView {
    pub gencad_version: Seq<char>,
    pub user: Seq<char>,
    pub drawing: Seq<char>,
    pub revision: Seq<char>,
    pub units: Dimension,
    pub origin: XYRefView,
    pub intertrack: Seq<char>,
    pub attributes: Seq<AttributeView>,
}

impl DeepView for Header {
    type V = HeaderView;

    open spec fn deep_view(&self) -> HeaderView {
        HeaderView {
            gencad_version: self.gencad_version.deep_view(),
            user: self.user@,
            drawing: self.drawing@,
            revision: self.revision@,
            units: self.units,
            origin: self.origin.deep_view(),
            intertrack: self.intertrack.deep_view(),
            attributes: self.attributes.deep_view(),
        }
    }
}

/// The builder of the header: the fields that the lines so far have given.
#[derive(Debug, Clone, PartialEq, Eq)]
pub struct HeaderParser {
    pub gencad_version: Option<Number>,
    pub user: Option<String>,
    pub drawing: Option<String>,
    pub revision: Option<String>,
    pub units: Option<Dimension>,
    pub origin: Option<XYRef>,
    pub intertrack: Option<Number>,
    pub attributes: Vec<Attribute>,
}

/// The mathematical content of a [`HeaderParser`].
pub ghost struct HeaderParserView {
    pub gencad_version: Option<Seq<char>>,
    pub user: Option<Seq<char>>,
    pub drawing: Option<Seq<char>>,
    pub revision: Option<Seq<char>>,
    pub units: Option<Dimension>,
    pub origin: Option<XYRefView>,
    pub intertrack: Option<Seq<char>>,
    pub attributes: Seq<AttributeView>,
}

impl DeepView for HeaderParser {
    type V = HeaderParserView;

    open spec fn deep_view(&self) -> HeaderParserView {
        HeaderParserView {
            gencad_version: self.gencad_version.deep_view(),
            user: self.user.deep_view(),
            drawing: self.drawing.deep_view(),
            revision: self.revision.deep_view(),
            units: self.units,
            origin: self.origin.deep_view(),
            intertrack: self.intertrack.deep_view(),
            attributes: self.attributes.deep_view(),
        }
    }
}

/// The builder before the first line.
pub open spec fn spec_header_init() -> HeaderParserView {
    HeaderParserView {
        gencad_version: None,
        user: None,
        drawing: None,
        revision: None,
        units: None,
        origin: None,
        intertrack: None,
        attributes: Seq::empty(),
    }
}

/// The builder `h` after the line `kp`.
pub open spec fn spec_header_step(h: HeaderParserView, kp: KeywordParamView) -> Result<
    HeaderParserView,
    ParseErrorView,
> {
    let p = kp.parameter;
    match Keyword::spec_of(kp.keyword) {
        Keyword::Gencad => match first_wins(h.gencad_version, whole(spec_number(p))) {
            Ok(gencad_version) => Ok(HeaderParserView { gencad_version, ..h }),
            Err(e) => Err(e),
        },
        Keyword::User => match first_wins(h.user, whole(spec_string(p))) {
            Ok(user) => Ok(HeaderParserView { user, ..h }),
            Err(e) => Err(e),
        },
        Keyword::Drawing => match first_wins(h.drawing, whole(spec_string(p))) {
            Ok(drawing) => Ok(HeaderParserView { drawing, ..h }),
            Err(e) => Err(e),
        },
        Keyword::Revision => match first_wins(h.revision, whole(spec_string(p))) {
            Ok(revision) => Ok(HeaderParserView { revision, ..h }),
            Err(e) => Err(e),
        },
        Keyword::Units => match first_wins(h.units, whole(spec_dimension(p))) {
            Ok(units) => Ok(HeaderParserView { units, ..h }),
            Err(e) => Err(e),
        },
        Keyword::Origin => match first_wins(h.origin, whole(spec_x_y_ref(p))) {
            Ok(origin) => Ok(HeaderParserView { origin, ..h }),
            Err(e) => Err(e),
        },
        Keyword::Intertrack => match first_wins(h.intertrack, whole(spec_number(p))) {
            Ok(intertrack) => Ok(HeaderParserView { intertrack, ..h }),
            Err(e) => Err(e),
        },
        Keyword::Attribute => match whole(spec_attrib_ref(p)) {
            Ok(a) => Ok(HeaderParserView { attributes: h.attributes.push(a), ..h }),
            Err(e) => Err(e),
        },
        _ => Err(
            ParseErrorView::UnexpectedKeyword { section: SectionKind::Header, keyword: kp.keyword },
        ),
    }
}

/// The error of a header that lacks `field`.
pub open spec fn spec_header_missing(field: Field) -> ParseErrorView {
    ParseErrorView::MissingField { section: SectionKind::Header, field }
}

/// The first of the required fields, in the order GENCAD, USER, DRAWING,
/// REVISION, UNITS, ORIGIN, INTERTRACK, that `h` lacks.
pub open spec fn spec_header_lacks(h: HeaderParserView) -> Option<Field> {
    if h.gencad_version is None {
        Some(Field::Gencad)
    } else if h.user is None {
        Some(Field::User)
    } else if h.drawing is None {
        Some(Field::Drawing)
    } else if h.revision is None {
        Some(Field::Revision)
    } else if h.units is None {
        Some(Field::Units)
    } else if h.origin is None {
        Some(Field::Origin)
    } else if h.intertrack is None {
        Some(Field::Intertrack)
    } else {
        None
    }
}

/// The header that the builder `h` has collected, or the error that names
/// the first required field it lacks.
pub open spec fn spec_header_finalize(h: HeaderParserView) -> Result<HeaderView, ParseErrorView> {
    match spec_header_lacks(h) {
        Some(field) => Err(spec_header_missing(field)),
        None => Ok(
            HeaderView {
                gencad_version: h.gencad_version->0,
                user: h.user->0,
                drawing: h.drawing->0,
                revision: h.revision->0,
                units: h.units->0,
                origin: h.origin->0,
                intertrack: h.intertrack->0,
                attributes: h.attributes,
            },
        ),
    }
}

/// The header that the lines of a `HEADER` section describe.
pub open spec fn spec_parse_header(lines: Seq<KeywordParamView>) -> Result<
    HeaderView,
    ParseErrorView,
> {
    match run(
        |h: HeaderParserView, kp: KeywordParamView| spec_header_step(h, kp),
        spec_header_init(),
        lines,
    ) {
        Ok(h) => spec_header_finalize(h),
        Err(e) => Err(e),
    }
}

/// Whether the keyword `k` gives a field of the header that can be given once.
pub open spec fn is_header_once(k: Keyword) -> bool {
    k == Keyword::Gencad || k == Keyword::User || k == Keyword::Drawing || k == Keyword::Revision
        || k == Keyword::Units || k == Keyword::Origin || k == Keyword::Intertrack
}

/// The keyword that gives the field `f` of the header.
pub open spec fn header_keyword(f: Field) -> Keyword {
    match f {
        Field::Gencad => Keyword::Gencad,
        Field::User => Keyword::User,
        Field::Drawing => Keyword::Drawing,
        Field::Revision => Keyword::Revision,
        Field::Units => Keyword::Units,
        Field::Origin => Keyword::Origin,
        _ => Keyword::Intertrack,
    }
}

/// Whether `f` is one of the fields that the header cannot do without.
pub open spec fn is_header_field(f: Field) -> bool {
    f == Field::Gencad || f == Field::User || f == Field::Drawing || f == Field::Revision || f
        == Field::Units || f == Field::Origin || f == Field::Intertrack
}

/// Whether the builder `h` holds the field `f`.
pub open spec fn header_has(h: HeaderParserView, f: Field) -> bool {
    match f {
        Field::Gencad => h.gencad_version is Some,
        Field::User => h.user is Some,
        Field::Drawing => h.drawing is Some,
        Field::Revision => h.revision is Some,
        Field::Units => h.units is Some,
        Field::Origin => h.origin is Some,
        Field::Intertrack => h.intertrack is Some,
        _ => false,
    }
}

/// The state of the builder of the header after the lines `lines`.
pub open spec fn spec_header_run(lines: Seq<KeywordParamView>) -> Result<
    HeaderParserView,
    ParseErrorView,
> {
    run(
        |h: HeaderParserView, kp: KeywordParamView| spec_header_step(h, kp),
        spec_header_init(),
        lines,
    )
}

/// Of two lines of the header with the same keyword of a field that can be
/// given once, the first decides the value: the second changes nothing,
/// whatever it holds, and is no error.
pub proof fn lemma_header_second_ignored(
    h: HeaderParserView,
    first: KeywordParamView,
    second: KeywordParamView,
)
    requires
        is_header_once(Keyword::spec_of(first.keyword)),
        Keyword::spec_of(first.keyword) == Keyword::spec_of(second.keyword),
        spec_header_step(h, first) is Ok,
    ensures
        spec_header_step(spec_header_step(h, first)->Ok_0, second) == spec_header_step(h, first),
{
}

/// A field whose keyword no line carries is not set.
pub proof fn lemma_header_absent(lines: Seq<KeywordParamView>, f: Field)
    requires
        is_header_field(f),
        spec_header_run(lines) is Ok,
        forall|i: int|
            0 <= i < lines.len() ==> Keyword::spec_of(#[trigger] lines[i].keyword)
                != header_keyword(f),
    ensures
        !header_has(spec_header_run(lines)->Ok_0, f),
    decreases lines.len(),
{
    if lines.len() > 0 {
        let before = lines.drop_last();
        assert forall|i: int| 0 <= i < before.len() implies Keyword::spec_of(
            #[trigger] before[i].keyword,
        ) != header_keyword(f) by {
            assert(before[i] == lines[i]);
        }
        lemma_header_absent(before, f);
        assert(Keyword::spec_of(lines[lines.len() - 1].keyword) != header_keyword(f));
    }
}

/// A field whose keyword a line carries is set, where the lines are decoded
/// without error.
pub proof fn lemma_header_present(lines: Seq<KeywordParamView>, f: Field, at: int)
    requires
        is_header_field(f),
        spec_header_run(lines) is Ok,
        0 <= at < lines.len(),
        Keyword::spec_of(lines[at].keyword) == header_keyword(f),
    ensures
        header_has(spec_header_run(lines)->Ok_0, f),
    decreases lines.len(),
{
    let before = lines.drop_last();
    if at < lines.len() - 1 {
        assert(before[at] == lines[at]);
        lemma_header_present(before, f, at);
    }
}

/// Where each required field but `f` has its line, the field `g` is set,
/// unless it is `f`.
proof fn lemma_header_other_present(lines: Seq<KeywordParamView>, f: Field, g: Field)
    requires
        is_header_field(f),
        is_header_field(g),
        spec_header_run(lines) is Ok,
        forall|g: Field|
            is_header_field(g) && g != f ==> exists|i: int|
                0 <= i < lines.len() && Keyword::spec_of(#[trigger] lines[i].keyword)
                    == header_keyword(g),
    ensures
        g != f ==> header_has(spec_header_run(lines)->Ok_0, g),
{
    if g != f {
        assert(is_header_field(g) && g != f);
        let i = choose|i: int|
            0 <= i < lines.len() && Keyword::spec_of(#[trigger] lines[i].keyword)
                == header_keyword(g);
        lemma_header_present(lines, g, i);
    }
}

/// A header section that lacks the line of one required field, has a line
/// for each of the others, and is decoded without error line by line, fails
/// with the error that names exactly the field that is missing.
pub proof fn lemma_header_missing_field(lines: Seq<KeywordParamView>, f: Field)
    requires
        is_header_field(f),
        spec_header_run(lines) is Ok,
        forall|i: int|
            0 <= i < lines.len() ==> Keyword::spec_of(#[trigger] lines[i].keyword)
                != header_keyword(f),
        forall|g: Field|
            is_header_field(g) && g != f ==> exists|i: int|
                0 <= i < lines.len() && Keyword::spec_of(#[trigger] lines[i].keyword)
                    == header_keyword(g),
    ensures
        spec_parse_header(lines) == Err::<HeaderView, ParseErrorView>(spec_header_missing(f)),
{
    lemma_header_absent(lines, f);
    lemma_header_other_present(lines, f, Field::Gencad);
    lemma_header_other_present(lines, f, Field::User);
    lemma_header_other_present(lines, f, Field::Drawing);
    lemma_header_other_present(lines, f, Field::Revision);
    lemma_header_other_present(lines, f, Field::Units);
    lemma_header_other_present(lines, f, Field::Origin);
    lemma_header_other_present(lines, f, Field::Intertrack);
}

/// The error of a record of `section` that lacks `field`.
pub fn missing(section: SectionKind, field: Field) -> (r: ParseError)
    ensures
        r.deep_view() == (ParseErrorView::MissingField { section, field }),
{
    ParseError::MissingField { section, field }
}

impl HeaderParser {
    /// The builder before the first line.
    pub fn new() -> (r: HeaderParser)
        ensures
            r.deep_view() == spec_header_init(),
    {
        let r = HeaderParser {
            gencad_version: None,
            user: None,
            drawing: None,
            revision: None,
            units: None,
            origin: None,
            intertrack: None,
            attributes: Vec::new(),
        };
        assert(r.attributes.deep_view() =~= Seq::empty());
        r
    }

    /// Takes in the line `kp`. On an error the builder is as before.
    pub fn ingest(&mut self, kp: &KeywordParam) -> (r: Result<(), ParseError>)
        ensures
            match r {
                Ok(_) => spec_header_step(old(self).deep_view(), kp.deep_view()) == Ok::<
                    HeaderParserView,
                    ParseErrorView,
                >(final(self).deep_view()),
                Err(e) => spec_header_step(old(self).deep_view(), kp.deep_view()) == Err::<
                    HeaderParserView,
                    ParseErrorView,
                >(e.deep_view()) && *final(self) == *old(self),
            },
    {
        match Keyword::of(kp.keyword) {
            Keyword::Gencad => {
                if self.gencad_version.is_none() {
                    let (_, value) = number(kp.parameter)?;
                    self.gencad_version = Some(value);
                }
                Ok(())
            },
            Keyword::User => {
                if self.user.is_none() {
                    let (_, value) = string(kp.parameter)?;
                    self.user = Some(value);
                }
                Ok(())
            },
            Keyword::Drawing => {
                if self.drawing.is_none() {
                    let (_, value) = string(kp.parameter)?;
                    self.drawing = Some(value);
                }
                Ok(())
            },
            Keyword::Revision => {
                if self.revision.is_none() {
                    let (_, value) = string(kp.parameter)?;
                    self.revision = Some(value);
                }
                Ok(())
            },
            Keyword::Units => {
                if self.units.is_none() {
                    let (_, value) = dimension(kp.parameter)?;
                    self.units = Some(value);
                }
                Ok(())
            },
            Keyword::Origin => {
                if self.origin.is_none() {
                    let (_, value) = x_y_ref(kp.parameter)?;
                    self.origin = Some(value);
                }
                Ok(())
            },
            Keyword::Intertrack => {
                if self.intertrack.is_none() {
                    let (_, value) = number(kp.parameter)?;
                    self.intertrack = Some(value);
                }
                Ok(())
            },
            Keyword::Attribute => {
                let (_, value) = attrib_ref(kp.parameter)?;
                let ghost before = self.attributes.deep_view();
                self.attributes.push(value);
                assert(self.attributes.deep_view() =~= before.push(value.deep_view()));
                Ok(())
            },
            _ => Err(unexpected(SectionKind::Header, kp.keyword)),
        }
    }

    /// Completes the header, or names the first required field that no line gave.
    pub fn finalize(self) -> (r: Result<Header, ParseError>)
        ensures
            agrees_whole(r, spec_header_finalize(self.deep_view())),
    {
        let gencad_version = match self.gencad_version {
            Some(v) => v,
            None => {
                return Err(missing(SectionKind::Header, Field::Gencad));
            },
        };
        let user = match self.user {
            Some(v) => v,
            None => {
                return Err(missing(SectionKind::Header, Field::User));
            },
        };
        let drawing = match self.drawing {
            Some(v) => v,
            None => {
                return Err(missing(SectionKind::Header, Field::Drawing));
            },
        };
        let revision = match self.revision {
            Some(v) => v,
            None => {
                return Err(missing(SectionKind::Header, Field::Revision));
            },
        };
        let units = match self.units {
            Some(v) => v,
            None => {
                return Err(missing(SectionKind::Header, Field::Units));
            },
        };
        let origin = match self.origin {
            Some(v) => v,
            None => {
                return Err(missing(SectionKind::Header, Field::Origin));
            },
        };
        let intertrack = match self.intertrack {
            Some(v) => v,
            None => {
                return Err(missing(SectionKind::Header, Field::Intertrack));
            },
        };
        Ok(
            Header {
                gencad_version,
                user,
                drawing,
                revision,
                units,
                origin,
                intertrack,
                attributes: self.attributes,
            },
        )
    }
}

impl Header {
    /// Builds the header from the lines of a `HEADER` section.
    pub fn new(params: &[KeywordParam]) -> (r: Result<Header, ParseError>)
        ensures
            agrees_whole(r, spec_parse_header(params.deep_view())),
    {
        let ghost step = |h: HeaderParserView, kp: KeywordParamView| spec_header_step(h, kp);
        let ghost lines = params.deep_view();
        let mut hp = HeaderParser::new();
        let mut i: usize = 0;
        while i < params.len()
            invariant
                0 <= i <= params.len(),
                lines == params.deep_view(),
                step == |h: HeaderParserView, kp: KeywordParamView| spec_header_step(h, kp),
                run(step, spec_header_init(), lines.take(i as int)) == Ok::<
                    HeaderParserView,
                    ParseErrorView,
                >(hp.deep_view()),
            decreases params.len() - i,
        {
            proof {
                lemma_run_step(step, spec_header_init(), lines, i as int);
                assert(lines[i as int] == params[i as int].deep_view());
            }
            match hp.ingest(&params[i]) {
                Ok(_) => {},
                Err(e) => {
                    proof {
                        lemma_run_error(step, spec_header_init(), lines, i as int + 1);
                    }
                    return Err(e);
                },
            }
            i += 1;
        }
        assert(lines.take(i as int) == lines);
        hp.finalize()
    }
}

/// The lines of the header: one for each field, in the order GENCAD, USER,
/// DRAWING, REVISION, UNITS, ORIGIN, INTERTRACK, and the attributes.
pub open spec fn header_lines(v: HeaderView) -> Seq<Seq<char>> {
    seq![
        "GENCAD "@ + v.gencad_version,
        "USER "@ + string_text(v.user),
        "DRAWING "@ + string_text(v.drawing),
        "REVISION "@ + string_text(v.revision),
        "UNITS "@ + dimension_text(v.units),
        "ORIGIN "@ + x_y_text(v.origin),
        "INTERTRACK "@ + v.intertrack,
        attributes_text(v.attributes),
    ]
}

/// The text of the `HEADER` section: the opening line, the lines of the
/// header, the closing line.
pub open spec fn header_text(v: HeaderView) -> Seq<char> {
    join_lines(seq!["$HEADER"@, join_lines(header_lines(v)), "$ENDHEADER"@])
}

impl ToGencadString for Header {
    open spec fn gencad(&self) -> Seq<char> {
        header_text(self.deep_view())
    }

    fn to_gencad_string(&self) -> (r: String) {
        let mut lines: Vec<String> = Vec::new();
        lines.push(concat("GENCAD ", self.gencad_version.as_str()));
        lines.push(concat("USER ", self.user.to_gencad_string().as_str()));
        lines.push(concat("DRAWING ", self.drawing.to_gencad_string().as_str()));
        lines.push(concat("REVISION ", self.revision.to_gencad_string().as_str()));
        lines.push(concat("UNITS ", self.units.to_gencad_string().as_str()));
        lines.push(concat("ORIGIN ", self.origin.to_gencad_string().as_str()));
        lines.push(concat("INTERTRACK ", self.intertrack.as_str()));
        lines.push(self.attributes.to_gencad_string());
        assert(lines.deep_view() =~= header_lines(self.deep_view()));
        wrap_section("$HEADER", join(&lines), "$ENDHEADER")
    }
}

/// Whether the header `v` can be written and read back: its numbers are
/// numbers, and its strings and attributes can be written.
pub open spec fn header_ok(v: HeaderView) -> bool {
    &&& is_number(v.gencad_version)
    &&& is_writable(v.user)
    &&& is_writable(v.drawing)
    &&& is_writable(v.revision)
    &&& x_y_ok(v.origin)
    &&& is_number(v.intertrack)
    &&& attributes_ok(v.attributes)
}

/// The statements of the fields of a header, without the attributes.
pub open spec fn header_field_statements(v: HeaderView) -> Seq<KeywordParamView> {
    seq![
        KeywordParamView { keyword: "GENCAD"@, parameter: v.gencad_version },
        KeywordParamView { keyword: "USER"@, parameter: string_text(v.user) },
        KeywordParamView { keyword: "DRAWING"@, parameter: string_text(v.drawing) },
        KeywordParamView { keyword: "REVISION"@, parameter: string_text(v.revision) },
        KeywordParamView { keyword: "UNITS"@, parameter: dimension_text(v.units) },
        KeywordParamView { keyword: "ORIGIN"@, parameter: x_y_text(v.origin) },
        KeywordParamView { keyword: "INTERTRACK"@, parameter: v.intertrack },
    ]
}

/// The statements of a header: those of its fields, and its attributes.
pub open spec fn header_statements(v: HeaderView) -> Seq<KeywordParamView> {
    header_field_statements(v) + v.attributes.map_values(|a: AttributeView| attribute_statement(a))
}

/// A unit of dimension alone on its line is read back.
pub proof fn lemma_whole_dimension(v: Dimension)
    ensures
        whole(spec_dimension(dimension_text(v))) == Ok::<Dimension, ParseErrorView>(v),
        one_line(dimension_text(v)),
{
    lemma_dimension_round_trip(v, Seq::empty());
    assert(dimension_text(v) + Seq::<char>::empty() =~= dimension_text(v));
    lemma_dimension_text_one_line(v);
}

/// The lines of a header are read as its statements.
proof fn lemma_header_reads(v: HeaderView)
    requires
        header_ok(v),
    ensures
        reads_as(join_lines(header_lines(v)), header_statements(v)),
{
    reveal_strlit(" ");
    reveal_strlit("GENCAD ");
    reveal_strlit("GENCAD");
    assert("GENCAD "@ =~= "GENCAD"@ + " "@);
    lemma_keyword(Keyword::Gencad);
    lemma_whole_number(v.gencad_version);
    reveal_strlit("USER ");
    reveal_strlit("USER");
    assert("USER "@ =~= "USER"@ + " "@);
    lemma_keyword(Keyword::User);
    lemma_whole_string(v.user);
    reveal_strlit("DRAWING ");
    reveal_strlit("DRAWING");
    assert("DRAWING "@ =~= "DRAWING"@ + " "@);
    lemma_keyword(Keyword::Drawing);
    lemma_whole_string(v.drawing);
    reveal_strlit("REVISION ");
    reveal_strlit("REVISION");
    assert("REVISION "@ =~= "REVISION"@ + " "@);
    lemma_keyword(Keyword::Revision);
    lemma_whole_string(v.revision);
    reveal_strlit("UNITS ");
    reveal_strlit("UNITS");
    assert("UNITS "@ =~= "UNITS"@ + " "@);
    lemma_keyword(Keyword::Units);
    lemma_whole_dimension(v.units);
    reveal_strlit("ORIGIN ");
    reveal_strlit("ORIGIN");
    assert("ORIGIN "@ =~= "ORIGIN"@ + " "@);
    lemma_keyword(Keyword::Origin);
    lemma_whole_x_y(v.origin);
    reveal_strlit("INTERTRACK ");
    reveal_strlit("INTERTRACK");
    assert("INTERTRACK "@ =~= "INTERTRACK"@ + " "@);
    lemma_keyword(Keyword::Intertrack);
    lemma_whole_number(v.intertrack);
    let f = header_field_statements(v);
    let none = Seq::<Seq<char>>::empty();
    let no_lines = Seq::<Seq<KeywordParamView>>::empty();
    lemma_reads_empty();
    assert(join_lines(none) =~= Seq::<char>::empty());
    assert(concat_all(no_lines) =~= Seq::<KeywordParamView>::empty());
    lemma_reads_keyword_line("GENCAD "@, "GENCAD"@, v.gencad_version);
    lemma_reads_push(none, no_lines, "GENCAD "@ + v.gencad_version, seq![f[0]]);
    let t0 = none.push("GENCAD "@ + v.gencad_version);
    let l0 = no_lines.push(seq![f[0]]);
    lemma_reads_keyword_line("USER "@, "USER"@, string_text(v.user));
    lemma_reads_push(t0, l0, "USER "@ + string_text(v.user), seq![f[1]]);
    let t1 = t0.push("USER "@ + string_text(v.user));
    let l1 = l0.push(seq![f[1]]);
    lemma_reads_keyword_line("DRAWING "@, "DRAWING"@, string_text(v.drawing));
    lemma_reads_push(t1, l1, "DRAWING "@ + string_text(v.drawing), seq![f[2]]);
    let t2 = t1.push("DRAWING "@ + string_text(v.drawing));
    let l2 = l1.push(seq![f[2]]);
    lemma_reads_keyword_line("REVISION "@, "REVISION"@, string_text(v.revision));
    lemma_reads_push(t2, l2, "REVISION "@ + string_text(v.revision), seq![f[3]]);
    let t3 = t2.push("REVISION "@ + string_text(v.revision));
    let l3 = l2.push(seq![f[3]]);
    lemma_reads_keyword_line("UNITS "@, "UNITS"@, dimension_text(v.units));
    lemma_reads_push(t3, l3, "UNITS "@ + dimension_text(v.units), seq![f[4]]);
    let t4 = t3.push("UNITS "@ + dimension_text(v.units));
    let l4 = l3.push(seq![f[4]]);
    lemma_reads_keyword_line("ORIGIN "@, "ORIGIN"@, x_y_text(v.origin));
    lemma_reads_push(t4, l4, "ORIGIN "@ + x_y_text(v.origin), seq![f[5]]);
    let t5 = t4.push("ORIGIN "@ + x_y_text(v.origin));
    let l5 = l4.push(seq![f[5]]);
    lemma_reads_keyword_line("INTERTRACK "@, "INTERTRACK"@, v.intertrack);
    lemma_reads_push(t5, l5, "INTERTRACK "@ + v.intertrack, seq![f[6]]);
    let t6 = t5.push("INTERTRACK "@ + v.intertrack);
    let l6 = l5.push(seq![f[6]]);
    let a = v.attributes.map_values(|a: AttributeView| attribute_statement(a));
    lemma_reads_attributes(v.attributes);
    lemma_reads_push(t6, l6, attributes_text(v.attributes), a);
    assert(t6.push(attributes_text(v.attributes)) =~= header_lines(v));
    assert(concat_all(l6.push(a)) =~= header_statements(v));
}

/// The statements of the fields of a header give the header its fields.
proof fn lemma_header_fields_run(v: HeaderView)
    requires
        header_ok(v),
    ensures
        spec_header_run(header_field_statements(v)) == Ok::<HeaderParserView, ParseErrorView>(
            HeaderParserView {
                gencad_version: Some(v.gencad_version),
                user: Some(v.user),
                drawing: Some(v.drawing),
                revision: Some(v.revision),
                units: Some(v.units),
                origin: Some(v.origin),
                intertrack: Some(v.intertrack),
                attributes: Seq::empty(),
            },
        ),
{
    let step = |h: HeaderParserView, kp: KeywordParamView| spec_header_step(h, kp);
    let init = spec_header_init();
    let f = header_field_statements(v);
    lemma_keyword(Keyword::Gencad);
    lemma_whole_number(v.gencad_version);
    lemma_keyword(Keyword::User);
    lemma_whole_string(v.user);
    lemma_keyword(Keyword::Drawing);
    lemma_whole_string(v.drawing);
    lemma_keyword(Keyword::Revision);
    lemma_whole_string(v.revision);
    lemma_keyword(Keyword::Units);
    lemma_whole_dimension(v.units);
    lemma_keyword(Keyword::Origin);
    lemma_whole_x_y(v.origin);
    lemma_keyword(Keyword::Intertrack);
    lemma_whole_number(v.intertrack);
    let h0 = HeaderParserView { gencad_version: Some(v.gencad_version), ..init };
    let h1 = HeaderParserView { user: Some(v.user), ..h0 };
    let h2 = HeaderParserView { drawing: Some(v.drawing), ..h1 };
    let h3 = HeaderParserView { revision: Some(v.revision), ..h2 };
    let h4 = HeaderParserView { units: Some(v.units), ..h3 };
    let h5 = HeaderParserView { origin: Some(v.origin), ..h4 };
    let h6 = HeaderParserView { intertrack: Some(v.intertrack), ..h5 };
    let s0 = Seq::<KeywordParamView>::empty().push(f[0]);
    assert(s0 =~= seq![f[0]]);
    lemma_run_one(step, init, f[0]);
    lemma_run_push(step, init, s0, f[1]);
    let s1 = s0.push(f[1]);
    assert(run(step, init, s1) == Ok::<HeaderParserView, ParseErrorView>(h1));
    lemma_run_push(step, init, s1, f[2]);
    let s2 = s1.push(f[2]);
    assert(run(step, init, s2) == Ok::<HeaderParserView, ParseErrorView>(h2));
    lemma_run_push(step, init, s2, f[3]);
    let s3 = s2.push(f[3]);
    assert(run(step, init, s3) == Ok::<HeaderParserView, ParseErrorView>(h3));
    lemma_run_push(step, init, s3, f[4]);
    let s4 = s3.push(f[4]);
    assert(run(step, init, s4) == Ok::<HeaderParserView, ParseErrorView>(h4));
    lemma_run_push(step, init, s4, f[5]);
    let s5 = s4.push(f[5]);
    assert(run(step, init, s5) == Ok::<HeaderParserView, ParseErrorView>(h5));
    lemma_run_push(step, init, s5, f[6]);
    let s6 = s5.push(f[6]);
    assert(run(step, init, s6) == Ok::<HeaderParserView, ParseErrorView>(h6));
    assert(s6 =~= f);
}

/// A header is read back from its statements.
proof fn lemma_header_run(v: HeaderView)
    requires
        header_ok(v),
    ensures
        spec_parse_header(header_statements(v)) == Ok::<HeaderView, ParseErrorView>(v),
{
    let step = |h: HeaderParserView, kp: KeywordParamView| spec_header_step(h, kp);
    let init = spec_header_init();
    let h = HeaderParserView {
        gencad_version: Some(v.gencad_version),
        user: Some(v.user),
        drawing: Some(v.drawing),
        revision: Some(v.revision),
        units: Some(v.units),
        origin: Some(v.origin),
        intertrack: Some(v.intertrack),
        attributes: Seq::empty(),
    };
    let put = |h: HeaderParserView, list: Seq<AttributeView>|
        HeaderParserView { attributes: list, ..h };
    let line = |a: AttributeView| attribute_statement(a);
    lemma_header_fields_run(v);
    lemma_keyword(Keyword::Attribute);
    assert forall|list: Seq<AttributeView>, i: int|
        0 <= i < v.attributes.len() implies #[trigger] step(
        put(h, list),
        line(v.attributes[i]),
    ) == Ok::<HeaderParserView, ParseErrorView>(put(h, list.push(v.attributes[i]))) by {
        lemma_whole_attribute(v.attributes[i]);
    }
    lemma_run_each(step, put, h, Seq::empty(), v.attributes, line);
    lemma_run_concat(
        step,
        init,
        header_field_statements(v),
        v.attributes.map_values(line),
    );
    assert(put(h, Seq::empty()) == h);
    assert(Seq::<AttributeView>::empty() + v.attributes =~= v.attributes);
}

/// The `HEADER` section is read back from its text: the text of a header
/// that can be written is split into the statements of a section named
/// `HEADER`, and the builder makes the header of them.
pub proof fn lemma_header_round_trip(v: HeaderView)
    requires
        header_ok(v),
    ensures
        section_round_trips(header_text(v), ParsedSectionView::Header(v)),
{
    reveal(spec_build_section);
    lemma_section_header();
    let body = join_lines(header_lines(v));
    lemma_header_reads(v);
    lemma_header_run(v);
    lemma_section_written("HEADER"@, body, header_statements(v));
    lemma_join_three("$HEADER"@, body, "$ENDHEADER"@);
    assert(header_text(v) =~= section_text("HEADER"@, body));
    let section = SectionView { name: "HEADER"@, parameters: header_statements(v) };
    assert(spec_build_section(section) == Ok::<ParsedSectionView, ParseErrorView>(
        ParsedSectionView::Header(v),
    ));
}

} // verus!
