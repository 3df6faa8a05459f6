//! The `PADS` section.

use vstd::prelude::*;
use vstd::string::*;
use crate::error::{agrees_whole, ParseError, ParseErrorView, SectionKind};
use crate::lex::{lemma_one_line_concat, one_line};
use crate::parser::{KeywordParam, KeywordParamView, SectionView};
use crate::parser::file::{
    lemma_section_pads, ParsedSectionView, section_round_trips, spec_build_section,
};
use crate::parser::keyword::{Keyword, lemma_keyword};
use crate::parser::written::{
    concat_all, lemma_empty_section_written, lemma_reads_each, lemma_reads_empty,
    lemma_reads_join_lines, lemma_reads_keyword_line, lemma_reads_more, lemma_section_written,
    reads_as, section_text,
};
use crate::sections::{
    attribute_statement, attributes_ok, lemma_reads_attributes, lemma_run_concat, lemma_run_each,
    lemma_run_error, lemma_run_one, lemma_run_step, lemma_whole_attribute, run, unexpected, whole,
};
use crate::serialization::{
    concat, crlf, extend_lines, join, join_lines, lemma_join_wrapped, push_line, render_all,
    ToGencadString,
};
use crate::types::aliases::pad_name;
use crate::types::arc_ref::{
    arc_ok, arc_ref, arc_text, ArcRef, ArcRefView, lemma_arc_one_line, lemma_arc_round_trip,
    spec_arc_ref,
};
use crate::types::attrib_ref::{
    attrib_ref, Attribute, attributes_text, AttributeView, spec_attrib_ref,
};
use crate::types::circle_ref::{
    circle_ok, circle_ref, circle_text, CircleRef, CircleRefView, lemma_circle_one_line,
    lemma_circle_round_trip, spec_circle_ref,
};
use crate::types::line_ref::{
    lemma_line_one_line, lemma_line_round_trip, line_ok, line_ref, line_text, LineRef, LineRefView,
    spec_line_ref,
};
use crate::types::number::{is_number, lemma_number_one_line, Number};
use crate::types::pad_type::{
    lemma_pad_type_round_trip, lemma_pad_type_text_one_line, pad_type, pad_type_text, PadType,
    spec_pad_type,
};
use crate::types::rectangle_ref::{
    lemma_rectangle_one_line, lemma_rectangle_round_trip, rectangle_ok, rectangle_ref,
    rectangle_text, RectangleRef, RectangleRefView, spec_rectangle_ref,
};
use crate::types::string::{
    is_writable, lemma_string_one_line, lemma_string_round_trip, spec_string, string_text,
};
use crate::types::util::{lemma_one_space, spaces, spec_spaces};
use crate::types::x_y_ref::{lemma_sp_number_round_trip, sp_number, spec_sp_number};

verus! {

/// A geometric shape that is used to define the outer edge of a pad. All
/// coordinates are relative to the pad's origin.
#[derive(Debug, Clone, PartialEq, Eq)]
pub enum PadShape {
    /// A straight line forming part of the pad's outer edge.
    Line(LineRef),
    /// A circular or elliptical arc forming part of the pad's outer edge.
    Arc(ArcRef),
    /// A full circle forming the pad's outer edge.
    Circle(CircleRef),
    /// A rectangle forming the pad's outer edge.
    Rectangle(RectangleRef),
}

/// The mathematical content of the shapes that make up outlines: of a
/// [`PadShape`], and of the shapes of the board.
pub ghost enum OutlineView {
    Line(LineRefView),
    Arc(ArcRefView),
    Circle(CircleRefView),
    Rectangle(RectangleRefView),
}

impl DeepView for PadShape {
    type V = OutlineView;

    open spec fn deep_view(&self) -> OutlineView {
        match self {
            PadShape::Line(v) => OutlineView::Line(v.deep_view()),
            PadShape::Arc(v) => OutlineView::Arc(v.deep_view()),
            PadShape::Circle(v) => OutlineView::Circle(v.deep_view()),
            PadShape::Rectangle(v) => OutlineView::Rectangle(v.deep_view()),
        }
    }
}

/// A pad on the circuit board. Pads define the physical shape and drill hole
/// of contact points on the board.
#[derive(Debug, Clone, PartialEq, Eq)]
pub struct Pad {
    /// The name of the pad.
    pub name: String,
    /// The type of the pad.
    pub ptype: PadType,
    /// The drill hole size. A value of `0` indicates no hole, `-1` an undefined one.
    pub drill_size: Number,
    /// The list of shapes that define the outer edge of the pad.
    pub shapes: Vec<PadShape>,
    /// Optional metadata associated with the pad.
    pub attributes: Vec<Attribute>,
}

/// The mathematical content of a [`Pad`].
pub ghost struct PadView {
    pub name: Seq<char>,
    pub ptype: PadType,
    pub drill_size: Seq<char>,
    pub shapes: Seq<OutlineView>,
    pub attributes: Seq<AttributeView>,
}

impl DeepView for Pad {
    type V = PadView;

    open spec fn deep_view(&self) -> PadView {
        PadView {
            name: self.name@,
            ptype: self.ptype,
            drill_size: self.drill_size.deep_view(),
            shapes: self.shapes.deep_view(),
            attributes: self.attributes.deep_view(),
        }
    }
}

/// The shape that a line with one of the keywords `LINE`, `ARC`, `CIRCLE`
/// and `RECTANGLE` describes; `None` for any other keyword.
pub open spec fn spec_outline(kp: KeywordParamView) -> Option<Result<OutlineView, ParseErrorView>> {
    let p = kp.parameter;
    match Keyword::spec_of(kp.keyword) {
        Keyword::Line => Some(
            match spec_line_ref(p) {
                Ok((_, v)) => Ok(OutlineView::Line(v)),
                Err(e) => Err(e),
            },
        ),
        Keyword::Arc => Some(
            match spec_arc_ref(p) {
                Ok((_, v)) => Ok(OutlineView::Arc(v)),
                Err(e) => Err(e),
            },
        ),
        Keyword::Circle => Some(
            match spec_circle_ref(p) {
                Ok((_, v)) => Ok(OutlineView::Circle(v)),
                Err(e) => Err(e),
            },
        ),
        Keyword::Rectangle => Some(
            match spec_rectangle_ref(p) {
                Ok((_, v)) => Ok(OutlineView::Rectangle(v)),
                Err(e) => Err(e),
            },
        ),
        _ => None,
    }
}

/// The line of a shape of an outline.
pub open spec fn outline_line(v: OutlineView) -> Seq<char> {
    match v {
        OutlineView::Line(l) => "LINE "@ + line_text(l),
        OutlineView::Arc(a) => "ARC "@ + arc_text(a),
        OutlineView::Circle(c) => "CIRCLE "@ + circle_text(c),
        OutlineView::Rectangle(r) => "RECTANGLE "@ + rectangle_text(r),
    }
}

/// The lines of the shapes `v` of an outline.
pub open spec fn outlines_text(v: Seq<OutlineView>) -> Seq<char> {
    join_lines(v.map_values(|o: OutlineView| outline_line(o)))
}

/// The pad type behind spaces at the head of `s`.
pub open spec fn spec_sp_pad_type(s: Seq<char>) -> crate::error::Parsed<PadType> {
    match spec_spaces(s) {
        Err(e) => Err(e),
        Ok((s1, _)) => spec_pad_type(s1),
    }
}

/// The pad that a `PAD` line opens: name, type and drill size, no shapes yet.
pub open spec fn spec_pad_new(params: Seq<char>) -> Result<PadView, ParseErrorView> {
    match spec_string(params) {
        Err(e) => Err(e),
        Ok((s1, name)) => match spec_sp_pad_type(s1) {
            Err(e) => Err(e),
            Ok((s2, ptype)) => match spec_sp_number(s2) {
                Err(e) => Err(e),
                Ok((_, drill_size)) => Ok(
                    PadView {
                        name,
                        ptype,
                        drill_size,
                        shapes: Seq::empty(),
                        attributes: Seq::empty(),
                    },
                ),
            },
        },
    }
}

/// The pad `pad` after the line `kp`.
pub open spec fn spec_pad_update(pad: PadView, kp: KeywordParamView) -> Result<
    PadView,
    ParseErrorView,
> {
    match spec_outline(kp) {
        Some(Ok(shape)) => Ok(PadView { shapes: pad.shapes.push(shape), ..pad }),
        Some(Err(e)) => Err(e),
        None => match Keyword::spec_of(kp.keyword) {
            Keyword::Attribute => match whole(spec_attrib_ref(kp.parameter)) {
                Ok(a) => Ok(PadView { attributes: pad.attributes.push(a), ..pad }),
                Err(e) => Err(e),
            },
            _ => Err(
                ParseErrorView::UnexpectedKeyword {
                    section: SectionKind::Pads,
                    keyword: kp.keyword,
                },
            ),
        },
    }
}

/// The state of the builder of the section: the pads that are complete, and
/// the one that is open.
pub ghost struct PadsParserView {
    pub pads: Seq<PadView>,
    pub open: Option<PadView>,
}

/// The builder before the first line.
pub open spec fn spec_pads_init() -> PadsParserView {
    PadsParserView { pads: Seq::empty(), open: None }
}

/// The pads of `state` with the open one closed.
pub open spec fn spec_pads_flushed(state: PadsParserView) -> Seq<PadView> {
    match state.open {
        Some(pad) => state.pads.push(pad),
        None => state.pads,
    }
}

/// The state of the builder after the line `kp`.
pub open spec fn spec_pads_step(state: PadsParserView, kp: KeywordParamView) -> Result<
    PadsParserView,
    ParseErrorView,
> {
    if Keyword::spec_of(kp.keyword) == Keyword::Pad {
        match spec_pad_new(kp.parameter) {
            Ok(pad) => Ok(PadsParserView { pads: spec_pads_flushed(state), open: Some(pad) }),
            Err(e) => Err(e),
        }
    } else {
        match state.open {
            Some(pad) => match spec_pad_update(pad, kp) {
                Ok(pad) => Ok(PadsParserView { pads: state.pads, open: Some(pad) }),
                Err(e) => Err(e),
            },
            None => Err(
                ParseErrorView::UnexpectedKeyword {
                    section: SectionKind::Pads,
                    keyword: kp.keyword,
                },
            ),
        }
    }
}

/// The pads that the lines of a `PADS` section describe.
pub open spec fn spec_parse_pads(lines: Seq<KeywordParamView>) -> Result<
    Seq<PadView>,
    ParseErrorView,
> {
    match run(
        |s: PadsParserView, kp: KeywordParamView| spec_pads_step(s, kp),
        spec_pads_init(),
        lines,
    ) {
        Ok(state) => Ok(spec_pads_flushed(state)),
        Err(e) => Err(e),
    }
}

/// Parses the pad type behind spaces at the head of `s`.
pub fn sp_pad_type(s: &str) -> (r: Result<(&str, PadType), ParseError>)
    ensures
        crate::error::agrees(r, spec_sp_pad_type(s@)),
{
    let (s1, _) = spaces(s)?;
    pad_type(s1)
}

impl PadShape {
    /// Decodes a line that describes a shape; `None` for a line with another keyword.
    pub fn from_line(kp: &KeywordParam) -> (r: Option<Result<PadShape, ParseError>>)
        ensures
            match r {
                Some(shape) => spec_outline(kp.deep_view()) matches Some(m) && agrees_whole(
                    shape,
                    m,
                ),
                None => spec_outline(kp.deep_view()) is None,
            },
    {
        match Keyword::of(kp.keyword) {
            Keyword::Line => Some(
                match line_ref(kp.parameter) {
                    Ok((_, v)) => Ok(PadShape::Line(v)),
                    Err(e) => Err(e),
                },
            ),
            Keyword::Arc => Some(
                match arc_ref(kp.parameter) {
                    Ok((_, v)) => Ok(PadShape::Arc(v)),
                    Err(e) => Err(e),
                },
            ),
            Keyword::Circle => Some(
                match circle_ref(kp.parameter) {
                    Ok((_, v)) => Ok(PadShape::Circle(v)),
                    Err(e) => Err(e),
                },
            ),
            Keyword::Rectangle => Some(
                match rectangle_ref(kp.parameter) {
                    Ok((_, v)) => Ok(PadShape::Rectangle(v)),
                    Err(e) => Err(e),
                },
            ),
            _ => None,
        }
    }
}

impl Pad {
    /// The pad with the given name, type and drill size, and no shapes.
    pub fn new(name: &str, ptype: PadType, drill_size: Number) -> (r: Pad)
        ensures
            r.deep_view() == (PadView {
                name: name@,
                ptype,
                drill_size: drill_size.deep_view(),
                shapes: Seq::empty(),
                attributes: Seq::empty(),
            }),
    {
        let r = Pad {
            name: name.to_owned(),
            ptype,
            drill_size,
            shapes: Vec::new(),
            attributes: Vec::new(),
        };
        assert(r.shapes.deep_view() =~= Seq::empty());
        assert(r.attributes.deep_view() =~= Seq::empty());
        r
    }

    /// Opens the pad that the parameter of a `PAD` line describes.
    pub fn from_parameters(params: &str) -> (r: Result<Pad, ParseError>)
        ensures
            agrees_whole(r, spec_pad_new(params@)),
    {
        let (s1, name) = pad_name(params)?;
        let (s2, ptype) = sp_pad_type(s1)?;
        let (_, drill_size) = sp_number(s2)?;
        Ok(Pad::new(name.as_str(), ptype, drill_size))
    }

    /// Applies the line `kp` to the pad. On an error the pad is as before.
    pub fn update(&mut self, kp: &KeywordParam) -> (r: Result<(), ParseError>)
        ensures
            match r {
                Ok(_) => spec_pad_update(old(self).deep_view(), kp.deep_view()) == Ok::<
                    PadView,
                    ParseErrorView,
                >(final(self).deep_view()),
                Err(e) => spec_pad_update(old(self).deep_view(), kp.deep_view()) == Err::<
                    PadView,
                    ParseErrorView,
                >(e.deep_view()) && *final(self) == *old(self),
            },
    {
        match PadShape::from_line(kp) {
            Some(shape) => {
                let shape = shape?;
                let ghost before = self.shapes.deep_view();
                self.shapes.push(shape);
                assert(self.shapes.deep_view() =~= before.push(shape.deep_view()));
                Ok(())
            },
            None => match Keyword::of(kp.keyword) {
                Keyword::Attribute => {
                    let (_, attribute) = attrib_ref(kp.parameter)?;
                    let ghost before = self.attributes.deep_view();
                    self.attributes.push(attribute);
                    assert(self.attributes.deep_view() =~= before.push(attribute.deep_view()));
                    Ok(())
                },
                _ => Err(unexpected(SectionKind::Pads, kp.keyword)),
            },
        }
    }
}

/// The builder of the `PADS` section.
#[derive(Debug, Clone, PartialEq, Eq)]
pub struct PadsParser {
    /// The pad that is open.
    pub state: Option<Pad>,
    /// The pads that are complete.
    pub pads: Vec<Pad>,
}

impl DeepView for PadsParser {
    type V = PadsParserView;

    open spec fn deep_view(&self) -> PadsParserView {
        PadsParserView { pads: self.pads.deep_view(), open: self.state.deep_view() }
    }
}

impl PadsParser {
    /// The builder before the first line.
    pub fn new() -> (r: PadsParser)
        ensures
            r.deep_view() == spec_pads_init(),
    {
        let r = PadsParser { state: None, pads: Vec::new() };
        assert(r.pads.deep_view() =~= Seq::empty());
        r
    }

    /// Takes in the line `kp`. On an error the builder is as before.
    pub fn ingest(&mut self, kp: &KeywordParam) -> (r: Result<(), ParseError>)
        ensures
            match r {
                Ok(_) => spec_pads_step(old(self).deep_view(), kp.deep_view()) == Ok::<
                    PadsParserView,
                    ParseErrorView,
                >(final(self).deep_view()),
                Err(e) => spec_pads_step(old(self).deep_view(), kp.deep_view()) == Err::<
                    PadsParserView,
                    ParseErrorView,
                >(e.deep_view()) && final(self).deep_view() == old(self).deep_view(),
            },
    {
        match Keyword::of(kp.keyword) {
            Keyword::Pad => {
                let pad = Pad::from_parameters(kp.parameter)?;
                if let Some(done) = self.state.take() {
                    let ghost before = self.pads.deep_view();
                    self.pads.push(done);
                    assert(self.pads.deep_view() =~= before.push(done.deep_view()));
                }
                self.state = Some(pad);
                Ok(())
            },
            _ => match self.state.take() {
                Some(mut pad) => {
                    let r = pad.update(kp);
                    self.state = Some(pad);
                    r
                },
                None => Err(unexpected(SectionKind::Pads, kp.keyword)),
            },
        }
    }

    /// Closes the open pad and hands out the pads.
    pub fn finalize(self) -> (r: Vec<Pad>)
        ensures
            r.deep_view() == spec_pads_flushed(self.deep_view()),
    {
        let mut pads = self.pads;
        if let Some(pad) = self.state {
            let ghost before = pads.deep_view();
            pads.push(pad);
            assert(pads.deep_view() =~= before.push(pad.deep_view()));
        }
        pads
    }
}

/// Parse the `PADS` section of a GenCAD file.
pub fn parse_pads(params: &[KeywordParam]) -> (r: Result<Vec<Pad>, ParseError>)
    ensures
        agrees_whole(r, spec_parse_pads(params.deep_view())),
{
    let ghost step = |s: PadsParserView, kp: KeywordParamView| spec_pads_step(s, kp);
    let ghost lines = params.deep_view();
    let mut p = PadsParser::new();
    let mut i: usize = 0;
    while i < params.len()
        invariant
            0 <= i <= params.len(),
            lines == params.deep_view(),
            step == |s: PadsParserView, kp: KeywordParamView| spec_pads_step(s, kp),
            run(step, spec_pads_init(), lines.take(i as int)) == Ok::<
                PadsParserView,
                ParseErrorView,
            >(p.deep_view()),
        decreases params.len() - i,
    {
        proof {
            lemma_run_step(step, spec_pads_init(), lines, i as int);
            lemma_run_error(step, spec_pads_init(), lines, i as int + 1);
            assert(lines[i as int] == params[i as int].deep_view());
        }
        p.ingest(&params[i])?;
        i += 1;
    }
    assert(lines.take(i as int) == lines);
    Ok(p.finalize())
}

/// The lines of a pad: its opening line, its shapes, its attributes.
pub open spec fn pad_text(v: PadView) -> Seq<char> {
    join_lines(
        seq![
            "PAD "@ + string_text(v.name) + " "@ + pad_type_text(v.ptype) + " "@ + v.drill_size,
            outlines_text(v.shapes),
            attributes_text(v.attributes),
        ],
    )
}

/// The text of the `PADS` section: the opening line, the pads, the closing line.
pub open spec fn pads_text(v: Seq<PadView>) -> Seq<char> {
    join_lines(seq!["$PADS"@] + v.map_values(|p: PadView| pad_text(p)) + seq!["$ENDPADS"@])
}

impl ToGencadString for PadShape {
    open spec fn gencad(&self) -> Seq<char> {
        outline_line(self.deep_view())
    }

    fn to_gencad_string(&self) -> (r: String) {
        match self {
            PadShape::Line(v) => concat("LINE ", v.to_gencad_string().as_str()),
            PadShape::Arc(v) => concat("ARC ", v.to_gencad_string().as_str()),
            PadShape::Circle(v) => concat("CIRCLE ", v.to_gencad_string().as_str()),
            PadShape::Rectangle(v) => concat("RECTANGLE ", v.to_gencad_string().as_str()),
        }
    }
}

impl ToGencadString for Pad {
    open spec fn gencad(&self) -> Seq<char> {
        pad_text(self.deep_view())
    }

    fn to_gencad_string(&self) -> (r: String) {
        let mut head = concat("PAD ", self.name.to_gencad_string().as_str());
        head.append(" ");
        head.append(self.ptype.to_gencad_string().as_str());
        head.append(" ");
        head.append(self.drill_size.as_str());
        let shapes = render_all(&self.shapes);
        assert(shapes.deep_view() =~= self.shapes.deep_view().map_values(
            |o: OutlineView| outline_line(o),
        ));
        let mut lines: Vec<String> = Vec::new();
        lines.push(head);
        lines.push(join(&shapes));
        lines.push(self.attributes.to_gencad_string());
        assert(lines.deep_view() =~= seq![
            head@,
            outlines_text(self.shapes.deep_view()),
            attributes_text(self.attributes.deep_view()),
        ]);
        join(&lines)
    }
}

impl ToGencadString for Vec<Pad> {
    open spec fn gencad(&self) -> Seq<char> {
        pads_text(self.deep_view())
    }

    fn to_gencad_string(&self) -> (r: String) {
        let mut lines: Vec<String> = Vec::new();
        lines.push(String::from_str("$PADS"));
        assert(lines.deep_view() =~= seq!["$PADS"@]);
        let pads = render_all(self);
        assert(pads.deep_view() =~= self.deep_view().map_values(|d: PadView| pad_text(d)));
        extend_lines(&mut lines, pads);
        let ghost body = lines.deep_view();
        push_line(&mut lines, String::from_str("$ENDPADS"));
        assert(lines.deep_view() =~= body + seq!["$ENDPADS"@]);
        join(&lines)
    }
}

/// Whether the numbers of the shape `v` are numbers.
pub open spec fn outline_ok(v: OutlineView) -> bool {
    match v {
        OutlineView::Line(l) => line_ok(l),
        OutlineView::Arc(a) => arc_ok(a),
        OutlineView::Circle(c) => circle_ok(c),
        OutlineView::Rectangle(r) => rectangle_ok(r),
    }
}

/// Whether the numbers of each of the shapes `v` are numbers.
pub open spec fn outlines_ok(v: Seq<OutlineView>) -> bool {
    forall|i: int| 0 <= i < v.len() ==> outline_ok(#[trigger] v[i])
}

/// The statement of a shape of an outline.
pub open spec fn outline_statement(v: OutlineView) -> KeywordParamView {
    match v {
        OutlineView::Line(l) => KeywordParamView { keyword: "LINE"@, parameter: line_text(l) },
        OutlineView::Arc(a) => KeywordParamView { keyword: "ARC"@, parameter: arc_text(a) },
        OutlineView::Circle(c) => KeywordParamView { keyword: "CIRCLE"@, parameter: circle_text(c) },
        OutlineView::Rectangle(r) => KeywordParamView {
            keyword: "RECTANGLE"@,
            parameter: rectangle_text(r),
        },
    }
}

/// The statement of a shape is read back as the shape, and its line is read
/// as its statement.
pub proof fn lemma_whole_outline(v: OutlineView)
    requires
        outline_ok(v),
    ensures
        spec_outline(outline_statement(v)) == Some(Ok::<OutlineView, ParseErrorView>(v)),
        reads_as(outline_line(v), seq![outline_statement(v)]),
        Keyword::spec_of(outline_statement(v).keyword) != Keyword::Attribute,
{
    reveal_strlit(" ");
    let none = Seq::<char>::empty();
    match v {
        OutlineView::Line(l) => {
            lemma_keyword(Keyword::Line);
            reveal_strlit("LINE ");
            reveal_strlit("LINE");
            assert("LINE "@ =~= "LINE"@ + " "@);
            lemma_line_round_trip(l, none);
            assert(line_text(l) + none =~= line_text(l));
            lemma_line_one_line(l);
            lemma_reads_keyword_line("LINE "@, "LINE"@, line_text(l));
        },
        OutlineView::Arc(a) => {
            lemma_keyword(Keyword::Arc);
            reveal_strlit("ARC ");
            reveal_strlit("ARC");
            assert("ARC "@ =~= "ARC"@ + " "@);
            lemma_arc_round_trip(a);
            lemma_arc_one_line(a);
            lemma_reads_keyword_line("ARC "@, "ARC"@, arc_text(a));
        },
        OutlineView::Circle(c) => {
            lemma_keyword(Keyword::Circle);
            reveal_strlit("CIRCLE ");
            reveal_strlit("CIRCLE");
            assert("CIRCLE "@ =~= "CIRCLE"@ + " "@);
            lemma_circle_round_trip(c, none);
            assert(circle_text(c) + none =~= circle_text(c));
            lemma_circle_one_line(c);
            lemma_reads_keyword_line("CIRCLE "@, "CIRCLE"@, circle_text(c));
        },
        OutlineView::Rectangle(r) => {
            lemma_keyword(Keyword::Rectangle);
            reveal_strlit("RECTANGLE ");
            reveal_strlit("RECTANGLE");
            assert("RECTANGLE "@ =~= "RECTANGLE"@ + " "@);
            lemma_rectangle_round_trip(r, none);
            assert(rectangle_text(r) + none =~= rectangle_text(r));
            lemma_rectangle_one_line(r);
            lemma_reads_keyword_line("RECTANGLE "@, "RECTANGLE"@, rectangle_text(r));
        },
    }
}

/// Shapes that are written one per line are read as their statements.
pub proof fn lemma_reads_outlines(v: Seq<OutlineView>)
    requires
        outlines_ok(v),
    ensures
        reads_as(outlines_text(v), v.map_values(|o: OutlineView| outline_statement(o))),
{
    assert forall|i: int| 0 <= i < v.len() implies reads_as(
        outline_line(#[trigger] v[i]),
        seq![outline_statement(v[i])],
    ) by {
        lemma_whole_outline(v[i]);
    }
    lemma_reads_each(v, |o: OutlineView| outline_line(o), |o: OutlineView| outline_statement(o));
}

/// Whether the pad `v` can be written and read back.
pub open spec fn pad_ok(v: PadView) -> bool {
    is_writable(v.name) && is_number(v.drill_size) && outlines_ok(v.shapes) && attributes_ok(
        v.attributes,
    )
}

/// Whether each of the pads `v` can be written and read back.
pub open spec fn pads_ok(v: Seq<PadView>) -> bool {
    forall|i: int| 0 <= i < v.len() ==> pad_ok(#[trigger] v[i])
}

/// The parameter of the opening line of a pad.
pub open spec fn pad_parameter(v: PadView) -> Seq<char> {
    string_text(v.name) + " "@ + pad_type_text(v.ptype) + " "@ + v.drill_size
}

/// The statements of a pad, in the order of its lines.
pub open spec fn pad_statements(v: PadView) -> Seq<KeywordParamView> {
    seq![KeywordParamView { keyword: "PAD"@, parameter: pad_parameter(v) }] + v.shapes.map_values(
        |o: OutlineView| outline_statement(o),
    ) + v.attributes.map_values(|a: AttributeView| attribute_statement(a))
}

/// The pad that its opening line opens.
pub open spec fn pad_opened(v: PadView) -> PadView {
    PadView { shapes: Seq::empty(), attributes: Seq::empty(), ..v }
}

/// The opening line of a pad is read back.
proof fn lemma_whole_pad(v: PadView)
    requires
        pad_ok(v),
    ensures
        spec_pad_new(pad_parameter(v)) == Ok::<PadView, ParseErrorView>(pad_opened(v)),
        one_line(pad_parameter(v)),
{
    reveal_strlit(" ");
    let none = Seq::<char>::empty();
    let tail2 = " "@ + (v.drill_size + none);
    let tail1 = " "@ + (pad_type_text(v.ptype) + tail2);
    lemma_sp_number_round_trip(v.drill_size, none);
    lemma_pad_type_round_trip(v.ptype, tail2);
    assert((pad_type_text(v.ptype) + tail2)[0] == pad_type_text(v.ptype)[0]);
    lemma_one_space(pad_type_text(v.ptype) + tail2);
    assert(tail1[0] == ' ');
    lemma_string_round_trip(v.name, tail1);
    assert(pad_parameter(v) =~= string_text(v.name) + tail1);
    lemma_string_one_line(v.name);
    lemma_pad_type_text_one_line(v.ptype);
    lemma_number_one_line(v.drill_size);
    lemma_one_line_concat(string_text(v.name), " "@);
    lemma_one_line_concat(string_text(v.name) + " "@, pad_type_text(v.ptype));
    lemma_one_line_concat(string_text(v.name) + " "@ + pad_type_text(v.ptype), " "@);
    lemma_one_line_concat(
        string_text(v.name) + " "@ + pad_type_text(v.ptype) + " "@,
        v.drill_size,
    );
}

/// The text of a pad is read as its statements.
proof fn lemma_pad_reads(v: PadView)
    requires
        pad_ok(v),
    ensures
        reads_as(pad_text(v), pad_statements(v)),
{
    reveal_strlit(" ");
    reveal_strlit("PAD ");
    reveal_strlit("PAD");
    assert("PAD "@ =~= "PAD"@ + " "@);
    lemma_keyword(Keyword::Pad);
    lemma_whole_pad(v);
    lemma_reads_empty();
    let none = Seq::<Seq<char>>::empty();
    assert(join_lines(none) =~= Seq::<char>::empty());
    let head = KeywordParamView { keyword: "PAD"@, parameter: pad_parameter(v) };
    lemma_reads_keyword_line("PAD "@, "PAD"@, pad_parameter(v));
    lemma_reads_more(none, Seq::empty(), "PAD "@ + pad_parameter(v), seq![head]);
    let t0 = none.push("PAD "@ + pad_parameter(v));
    let s0 = Seq::<KeywordParamView>::empty() + seq![head];
    lemma_reads_outlines(v.shapes);
    let o = v.shapes.map_values(|o: OutlineView| outline_statement(o));
    lemma_reads_more(t0, s0, outlines_text(v.shapes), o);
    let t1 = t0.push(outlines_text(v.shapes));
    lemma_reads_attributes(v.attributes);
    let a = v.attributes.map_values(|a: AttributeView| attribute_statement(a));
    lemma_reads_more(t1, s0 + o, attributes_text(v.attributes), a);
    let t2 = t1.push(attributes_text(v.attributes));
    assert("PAD "@ + pad_parameter(v) =~= "PAD "@ + string_text(v.name) + " "@ + pad_type_text(
        v.ptype,
    ) + " "@ + v.drill_size);
    assert(t2 =~= seq![
        "PAD "@ + string_text(v.name) + " "@ + pad_type_text(v.ptype) + " "@ + v.drill_size,
        outlines_text(v.shapes),
        attributes_text(v.attributes),
    ]);
    assert(s0 + o + a =~= pad_statements(v));
}

/// The statements of a pad close the pad that is open and leave the pad
/// open, as it is.
proof fn lemma_pad_run(pads: Seq<PadView>, open: Option<PadView>, v: PadView)
    requires
        pad_ok(v),
    ensures
        run(
            |s: PadsParserView, kp: KeywordParamView| spec_pads_step(s, kp),
            PadsParserView { pads, open },
            pad_statements(v),
        ) == Ok::<PadsParserView, ParseErrorView>(
            PadsParserView {
                pads: spec_pads_flushed(PadsParserView { pads, open }),
                open: Some(v),
            },
        ),
{
    let step = |s: PadsParserView, kp: KeywordParamView| spec_pads_step(s, kp);
    let start = PadsParserView { pads, open };
    let pads = spec_pads_flushed(start);
    lemma_keyword(Keyword::Pad);
    lemma_keyword(Keyword::Attribute);
    lemma_whole_pad(v);
    let d0 = pad_opened(v);
    let st0 = PadsParserView { pads, open: Some(d0) };
    let head = KeywordParamView { keyword: "PAD"@, parameter: pad_parameter(v) };
    lemma_run_one(step, start, head);
    let a0 = seq![head];
    assert(run(step, start, a0) == Ok::<PadsParserView, ParseErrorView>(st0));
    let d1 = PadView { shapes: v.shapes, ..d0 };
    let st1 = PadsParserView { pads, open: Some(d1) };
    let put0 = |s: PadsParserView, list: Seq<OutlineView>|
        PadsParserView { open: Some(PadView { shapes: list, ..s.open->0 }), ..s };
    let line0 = |o: OutlineView| outline_statement(o);
    assert forall|list: Seq<OutlineView>, j: int| 0 <= j < v.shapes.len() implies #[trigger] step(
        put0(st0, list),
        line0(v.shapes[j]),
    ) == Ok::<PadsParserView, ParseErrorView>(put0(st0, list.push(v.shapes[j]))) by {
        lemma_whole_outline(v.shapes[j]);
        lemma_outline_keyword(v.shapes[j]);
    }
    lemma_run_each(step, put0, st0, Seq::empty(), v.shapes, line0);
    assert(put0(st0, Seq::empty()) == st0);
    assert(Seq::<OutlineView>::empty() + v.shapes =~= v.shapes);
    assert(put0(st0, v.shapes) == st1);
    let o = v.shapes.map_values(line0);
    lemma_run_concat(step, start, a0, o);
    let d2 = PadView { attributes: v.attributes, ..d1 };
    let st2 = PadsParserView { pads, open: Some(d2) };
    let put1 = |s: PadsParserView, list: Seq<AttributeView>|
        PadsParserView { open: Some(PadView { attributes: list, ..s.open->0 }), ..s };
    let line1 = |a: AttributeView| attribute_statement(a);
    assert forall|list: Seq<AttributeView>, j: int|
        0 <= j < v.attributes.len() implies #[trigger] step(
        put1(st1, list),
        line1(v.attributes[j]),
    ) == Ok::<PadsParserView, ParseErrorView>(put1(st1, list.push(v.attributes[j]))) by {
        lemma_whole_attribute(v.attributes[j]);
        lemma_attribute_not_outline(line1(v.attributes[j]));
    }
    lemma_run_each(step, put1, st1, Seq::empty(), v.attributes, line1);
    assert(put1(st1, Seq::empty()) == st1);
    assert(Seq::<AttributeView>::empty() + v.attributes =~= v.attributes);
    assert(put1(st1, v.attributes) == st2);
    let a = v.attributes.map_values(line1);
    lemma_run_concat(step, start, a0 + o, a);
    assert(a0 + o + a =~= pad_statements(v));
    assert(d2 == v);
}

/// The keyword of the statement of a shape is the keyword of a shape, and
/// none that opens a record.
pub proof fn lemma_outline_keyword(v: OutlineView)
    ensures
        ({
            let k = Keyword::spec_of(outline_statement(v).keyword);
            k == Keyword::Line || k == Keyword::Arc || k == Keyword::Circle || k
                == Keyword::Rectangle
        }),
{
    lemma_keyword(Keyword::Line);
    lemma_keyword(Keyword::Arc);
    lemma_keyword(Keyword::Circle);
    lemma_keyword(Keyword::Rectangle);
}

/// A statement with the keyword `ATTRIBUTE` is no statement of a shape.
pub proof fn lemma_attribute_not_outline(kp: KeywordParamView)
    requires
        Keyword::spec_of(kp.keyword) == Keyword::Attribute,
    ensures
        spec_outline(kp) is None,
{
}

/// The state of the builder behind the statements of the pads `v`: the last
/// pad is open, the others are complete.
pub open spec fn pads_state(v: Seq<PadView>) -> PadsParserView {
    if v.len() == 0 {
        spec_pads_init()
    } else {
        PadsParserView { pads: v.drop_last(), open: Some(v.last()) }
    }
}

/// The statements of pads, one pad behind the other, are read as the pads.
proof fn lemma_pads_run(v: Seq<PadView>)
    requires
        pads_ok(v),
    ensures
        run(
            |s: PadsParserView, kp: KeywordParamView| spec_pads_step(s, kp),
            spec_pads_init(),
            concat_all(v.map_values(|d: PadView| pad_statements(d))),
        ) == Ok::<PadsParserView, ParseErrorView>(pads_state(v)),
        spec_pads_flushed(pads_state(v)) == v,
    decreases v.len(),
{
    let step = |s: PadsParserView, kp: KeywordParamView| spec_pads_step(s, kp);
    let init = spec_pads_init();
    let lists = v.map_values(|d: PadView| pad_statements(d));
    if v.len() == 0 {
        assert(concat_all(lists) =~= Seq::<KeywordParamView>::empty());
        assert(spec_pads_flushed(pads_state(v)) =~= v);
    } else {
        let first = v.drop_last();
        assert(pads_ok(first)) by {
            assert forall|i: int| 0 <= i < first.len() implies pad_ok(#[trigger] first[i]) by {
                assert(first[i] == v[i]);
            }
        }
        lemma_pads_run(first);
        assert(lists.drop_last() =~= first.map_values(|d: PadView| pad_statements(d)));
        assert(lists.last() == pad_statements(v.last()));
        assert(pad_ok(v[v.len() - 1]));
        let before = pads_state(first);
        lemma_pad_run(before.pads, before.open, v.last());
        lemma_run_concat(step, init, concat_all(lists.drop_last()), pad_statements(v.last()));
        assert(spec_pads_flushed(before) == first);
        assert(first.push(v.last()) =~= v);
    }
}

/// The `PADS` section is read back from its text: the text of pads that can
/// be written is split into the statements of a section named `PADS`, and
/// the builder makes the pads of them.
pub proof fn lemma_pads_round_trip(v: Seq<PadView>)
    requires
        pads_ok(v),
    ensures
        section_round_trips(pads_text(v), ParsedSectionView::Pads(v)),
{
    reveal(spec_build_section);
    lemma_section_pads();
    let texts = v.map_values(|d: PadView| pad_text(d));
    let lists = v.map_values(|d: PadView| pad_statements(d));
    let statements = concat_all(lists);
    lemma_pads_run(v);
    lemma_join_wrapped("$PADS"@, texts, "$ENDPADS"@);
    let section = SectionView { name: "PADS"@, parameters: statements };
    if v.len() == 0 {
        assert(statements =~= Seq::<KeywordParamView>::empty());
        lemma_empty_section_written("PADS"@);
        assert(pads_text(v) =~= "$"@ + "PADS"@ + crlf() + "$END"@ + "PADS"@);
    } else {
        assert forall|i: int| 0 <= i < texts.len() implies reads_as(
            #[trigger] texts[i],
            lists[i],
        ) by {
            assert(pad_ok(v[i]));
            lemma_pad_reads(v[i]);
        }
        lemma_reads_join_lines(texts, lists);
        lemma_section_written("PADS"@, join_lines(texts), statements);
        assert(pads_text(v) =~= section_text("PADS"@, join_lines(texts)));
    }
    assert(spec_build_section(section) == Ok::<ParsedSectionView, ParseErrorView>(
        ParsedSectionView::Pads(v),
    ));
}

} // verus!
