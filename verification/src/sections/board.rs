//! The `BOARD` section.

use vstd::prelude::*;
use vstd::string::*;
use crate::error::{agrees_whole, ParseError, ParseErrorView, SectionKind};
use crate::lex::{lemma_one_line_concat, one_line};
use crate::parser::{KeywordParam, KeywordParamView, SectionView};
use crate::parser::file::{
    lemma_section_board, ParsedSectionView, section_round_trips, spec_build_section,
};
use crate::parser::keyword::{Keyword, lemma_keyword};
use crate::parser::written::{
    concat_all, lemma_reads_each, lemma_reads_empty, lemma_reads_join_lines,
    lemma_reads_keyword_line, lemma_reads_more, lemma_reads_opt, lemma_section_written,
    opt_statement, reads_as, section_text,
};
use crate::sections::{
    attribute_statement, attributes_ok, first_wins, lemma_reads_attributes, lemma_run_concat,
    lemma_run_each, lemma_run_error, lemma_run_one, lemma_run_opt, lemma_run_push, lemma_run_step,
    lemma_whole_attribute, lemma_whole_number, lemma_whole_string, run, unexpected, whole,
};
use crate::sections::pads::{
    lemma_reads_outlines, lemma_whole_outline, outline_line, outline_ok, outline_statement,
    outlines_ok, outlines_text, OutlineView, spec_outline,
};
use crate::serialization::{
    concat, join, join_lines, lemma_join_wrapped, opt_line, push_line, render_all, ToGencadString,
};
use crate::types::aliases::track_name;
use crate::types::arc_ref::{arc_ref, ArcRef};
use crate::types::attrib_ref::{
    attrib_ref, Attribute, attributes_text, AttributeView, spec_attrib_ref,
};
use crate::types::booleans::{
    filled_ref, flag_text, flag_to_string, lemma_filled_round_trip, lemma_flag_one_line,
    spec_filled_ref,
};
use crate::types::circle_ref::{circle_ref, CircleRef};
use crate::types::layer::{Layer, layer_text, lemma_layer_text_one_line};
use crate::types::line_ref::{line_ref, LineRef};
use crate::types::number::{is_number, number, Number, spec_number};
use crate::types::rectangle_ref::{rectangle_ref, RectangleRef};
use crate::types::string::{
    is_writable, lemma_string_one_line, lemma_string_round_trip, spec_string, string, string_text,
};
use crate::types::text_par::{
    lemma_sp_layer_round_trip, lemma_text_line_round_trip, lemma_text_par_one_line, sp_layer,
    sp_text_par, spec_sp_layer, spec_text_line, text_line, text_ok, text_par_text, TextPar,
    TextView,
};
use crate::types::x_y_ref::{lemma_x_y_one_line, x_y_ref, x_y_text, XYRef};

verus! {

/// Represents a geometric shape used in board outlines, cutouts, or masks.
#[derive(Debug, Clone, PartialEq, Eq)]
pub enum BoardShape {
    /// A straight line forming part of the board outline, cutout, or mask.
    Line(LineRef),
    /// A circular or elliptical arc forming part of the board outline, cutout, or mask.
    Arc(ArcRef),
    /// A full circle forming part of the board outline, cutout, or mask.
    Circle(CircleRef),
    /// A rectangle forming part of the board outline, cutout, or mask.
    Rectangle(RectangleRef),
}

impl DeepView for BoardShape {
    type V = OutlineView;

    open spec fn deep_view(&self) -> OutlineView {
        match self {
            BoardShape::Line(v) => OutlineView::Line(v.deep_view()),
            BoardShape::Arc(v) => OutlineView::Arc(v.deep_view()),
            BoardShape::Circle(v) => OutlineView::Circle(v.deep_view()),
            BoardShape::Rectangle(v) => OutlineView::Rectangle(v.deep_view()),
        }
    }
}

/// Represents an internal area of the board where all layers are cut away.
#[derive(Debug, Clone, PartialEq, Eq)]
pub struct Cutout {
    /// A unique identifier for the cutout (e.g., "cutout1", "cutout2").
    pub name: String,
    /// Geometric shapes defining the cutout's boundary.
    pub shapes: Vec<BoardShape>,
    /// Additional metadata associated with the cutout.
    pub attributes: Vec<Attribute>,
}

/// The mathematical content of a [`Cutout`].
pub ghost struct CutoutView {
    pub name: Seq<char>,
    pub shapes: Seq<OutlineView>,
    pub attributes: Seq<AttributeView>,
}

impl DeepView for Cutout {
    type V = CutoutView;

    open spec fn deep_view(&self) -> CutoutView {
        CutoutView {
            name: self.name@,
            shapes: self.shapes.deep_view(),
            attributes: self.attributes.deep_view(),
        }
    }
}

/// Represents an area of the board that is inaccessible to test pins.
#[derive(Debug, Clone, PartialEq, Eq)]
pub struct Mask {
    /// A unique identifier for the masked area (e.g., "mask1", "mask2").
    pub name: String,
    /// The board layer to which this mask applies.
    pub layer: Layer,
    /// Geometric shapes defining the masked area's boundary.
    pub shapes: Vec<BoardShape>,
    /// Additional metadata associated with the mask.
    pub attributes: Vec<Attribute>,
}

/// The mathematical content of a [`Mask`].
pub ghost struct MaskView {
    pub name: Seq<char>,
    pub layer: Layer,
    pub shapes: Seq<OutlineView>,
    pub attributes: Seq<AttributeView>,
}

impl DeepView for Mask {
    type V = MaskView;

    open spec fn deep_view(&self) -> MaskView {
        MaskView {
            name: self.name@,
            layer: self.layer,
            shapes: self.shapes.deep_view(),
            attributes: self.attributes.deep_view(),
        }
    }
}

/// Represents a text string attached to a component or artwork feature.
#[derive(Debug, Clone, PartialEq, Eq)]
pub struct Text {
    /// The bottom-left corner of the text.
    pub origin: XYRef,
    /// Specifies the text's size, rotation, mirror, layer, and bounding rectangle.
    pub text: TextPar,
}

impl DeepView for Text {
    type V = TextView;

    open spec fn deep_view(&self) -> TextView {
        TextView { origin: self.origin.deep_view(), text: self.text.deep_view() }
    }
}

/// Represents a component of an artwork feature on the board.
#[derive(Debug, Clone, PartialEq, Eq)]
pub enum ArtworkComponent {
    /// A straight line forming part of the artwork.
    Line(LineRef),
    /// A circular arc forming part of the artwork.
    Arc(ArcRef),
    /// A full circle forming part of the artwork.
    Circle(CircleRef),
    /// A rectangle forming part of the artwork.
    Rectangle(RectangleRef),
    /// A track type defined in the `TRACKS` section.
    Track(String),
    /// Indicates whether the following shapes form an enclosed area.
    Filled(bool),
    /// A text string attached to the artwork.
    Text(Text),
}

/// The mathematical content of an [`ArtworkComponent`].
pub ghost enum ArtworkComponentView {
    Outline(OutlineView),
    Track(Seq<char>),
    Filled(bool),
    Text(TextView),
}

impl DeepView for ArtworkComponent {
    type V = ArtworkComponentView;

    open spec fn deep_view(&self) -> ArtworkComponentView {
        match self {
            ArtworkComponent::Line(v) => ArtworkComponentView::Outline(
                OutlineView::Line(v.deep_view()),
            ),
            ArtworkComponent::Arc(v) => ArtworkComponentView::Outline(
                OutlineView::Arc(v.deep_view()),
            ),
            ArtworkComponent::Circle(v) => ArtworkComponentView::Outline(
                OutlineView::Circle(v.deep_view()),
            ),
            ArtworkComponent::Rectangle(v) => ArtworkComponentView::Outline(
                OutlineView::Rectangle(v.deep_view()),
            ),
            ArtworkComponent::Track(v) => ArtworkComponentView::Track(v@),
            ArtworkComponent::Filled(v) => ArtworkComponentView::Filled(*v),
            ArtworkComponent::Text(v) => ArtworkComponentView::Text(v.deep_view()),
        }
    }
}

/// Represents an artwork feature on the board (e.g., silkscreen, routing).
#[derive(Debug, Clone, PartialEq, Eq)]
pub struct Artwork {
    /// A unique identifier for the artwork feature (e.g., "artwork1", "artwork2").
    pub name: String,
    /// The board layer to which this artwork applies.
    pub layer: Layer,
    /// Components (lines, arcs, text, etc.) defining the artwork.
    pub components: Vec<ArtworkComponent>,
    /// Additional metadata associated with the artwork.
    pub attributes: Vec<Attribute>,
}

/// The mathematical content of an [`Artwork`] of the board.
pub ghost struct ArtworkView {
    pub name: Seq<char>,
    pub layer: Layer,
    pub components: Seq<ArtworkComponentView>,
    pub attributes: Seq<AttributeView>,
}

impl DeepView for Artwork {
    type V = ArtworkView;

    open spec fn deep_view(&self) -> ArtworkView {
        ArtworkView {
            name: self.name@,
            layer: self.layer,
            components: self.components.deep_view(),
            attributes: self.attributes.deep_view(),
        }
    }
}

/// Represents a subsection within the `BOARD` section (e.g., cutouts, masks, artwork).
#[derive(Debug, Clone, PartialEq, Eq)]
pub enum Subsection {
    /// A named internal area of the board where all layers are cut away.
    Cutout(Cutout),
    /// A named area of the board that is inaccessible to test pins.
    Mask(Mask),
    /// A named artwork feature on the board.
    Artwork(Artwork),
}

/// The mathematical content of a [`Subsection`].
pub ghost enum SubsectionView {
    Cutout(CutoutView),
    Mask(MaskView),
    Artwork(ArtworkView),
}

impl DeepView for Subsection {
    type V = SubsectionView;

    open spec fn deep_view(&self) -> SubsectionView {
        match self {
            Subsection::Cutout(v) => SubsectionView::Cutout(v.deep_view()),
            Subsection::Mask(v) => SubsectionView::Mask(v.deep_view()),
            Subsection::Artwork(v) => SubsectionView::Artwork(v.deep_view()),
        }
    }
}

/// Represents the `BOARD` section of a GenCAD file, defining the board's
/// outer shape and internal features.
#[derive(Debug, Clone, PartialEq, Eq)]
pub struct Board {
    /// The thickness of the board.
    pub thickness: Option<Number>,
    /// Geometric shapes defining the board's outer edge.
    pub outline_shapes: Vec<BoardShape>,
    /// Additional metadata associated with the board.
    pub attributes: Vec<Attribute>,
    /// Subsections such as cutouts, masks, and artwork features.
    pub subsections: Vec<Subsection>,
}

/// The mathematical content of a [`Board`].
pub ghost struct BoardView {
    pub thickness: Option<Seq<char>>,
    pub outline_shapes: Seq<OutlineView>,
    pub attributes: Seq<AttributeView>,
    pub subsections: Seq<SubsectionView>,
}

impl DeepView for Board {
    type V = BoardView;

    open spec fn deep_view(&self) -> BoardView {
        BoardView {
            thickness: self.thickness.deep_view(),
            outline_shapes: self.outline_shapes.deep_view(),
            attributes: self.attributes.deep_view(),
            subsections: self.subsections.deep_view(),
        }
    }
}

/// The name and the layer of a `MASK` or `ARTWORK` line of the board.
pub open spec fn spec_name_layer(params: Seq<char>) -> Result<(Seq<char>, Layer), ParseErrorView> {
    match spec_string(params) {
        Err(e) => Err(e),
        Ok((s1, name)) => match spec_sp_layer(s1) {
            Err(e) => Err(e),
            Ok((_, layer)) => Ok((name, layer)),
        },
    }
}

/// The sub-record that a line with one of the keywords `CUTOUT`, `MASK` and
/// `ARTWORK` opens; `None` for any other keyword.
pub open spec fn spec_subsection_new(kp: KeywordParamView) -> Option<
    Result<SubsectionView, ParseErrorView>,
> {
    match Keyword::spec_of(kp.keyword) {
        Keyword::Cutout => Some(
            match spec_string(kp.parameter) {
                Ok((_, name)) => Ok(
                    SubsectionView::Cutout(
                        CutoutView { name, shapes: Seq::empty(), attributes: Seq::empty() },
                    ),
                ),
                Err(e) => Err(e),
            },
        ),
        Keyword::Mask => Some(
            match spec_name_layer(kp.parameter) {
                Ok((name, layer)) => Ok(
                    SubsectionView::Mask(
                        MaskView { name, layer, shapes: Seq::empty(), attributes: Seq::empty() },
                    ),
                ),
                Err(e) => Err(e),
            },
        ),
        Keyword::Artwork => Some(
            match spec_name_layer(kp.parameter) {
                Ok((name, layer)) => Ok(
                    SubsectionView::Artwork(
                        ArtworkView {
                            name,
                            layer,
                            components: Seq::empty(),
                            attributes: Seq::empty(),
                        },
                    ),
                ),
                Err(e) => Err(e),
            },
        ),
        _ => None,
    }
}

/// What a line with one of the keywords `TRACK`, `FILLED` and `TEXT` adds to
/// an artwork; `None` for any other keyword.
pub open spec fn spec_artwork_only(kp: KeywordParamView) -> Option<
    Result<ArtworkComponentView, ParseErrorView>,
> {
    match Keyword::spec_of(kp.keyword) {
        Keyword::Track => Some(
            match spec_string(kp.parameter) {
                Ok((_, v)) => Ok(ArtworkComponentView::Track(v)),
                Err(e) => Err(e),
            },
        ),
        Keyword::Filled => Some(
            match spec_filled_ref(kp.parameter) {
                Ok((_, v)) => Ok(ArtworkComponentView::Filled(v)),
                Err(e) => Err(e),
            },
        ),
        Keyword::Text => Some(
            match spec_text_line(kp.parameter) {
                Ok(v) => Ok(ArtworkComponentView::Text(v)),
                Err(e) => Err(e),
            },
        ),
        _ => None,
    }
}

/// The sub-record `sub` with the attribute `a` added.
pub open spec fn spec_subsection_with(sub: SubsectionView, a: AttributeView) -> SubsectionView {
    match sub {
        SubsectionView::Cutout(v) => SubsectionView::Cutout(
            CutoutView { attributes: v.attributes.push(a), ..v },
        ),
        SubsectionView::Mask(v) => SubsectionView::Mask(
            MaskView { attributes: v.attributes.push(a), ..v },
        ),
        SubsectionView::Artwork(v) => SubsectionView::Artwork(
            ArtworkView { attributes: v.attributes.push(a), ..v },
        ),
    }
}

/// The sub-record `sub` with the shape `o` added.
pub open spec fn spec_subsection_with_shape(sub: SubsectionView, o: OutlineView) -> SubsectionView {
    match sub {
        SubsectionView::Cutout(v) => SubsectionView::Cutout(
            CutoutView { shapes: v.shapes.push(o), ..v },
        ),
        SubsectionView::Mask(v) => SubsectionView::Mask(MaskView { shapes: v.shapes.push(o), ..v }),
        SubsectionView::Artwork(v) => SubsectionView::Artwork(
            ArtworkView { components: v.components.push(ArtworkComponentView::Outline(o)), ..v },
        ),
    }
}

/// The state of the builder of the section: the board as far as it is built,
/// and its sub-record that is open.
pub ghost struct BoardParserView {
    pub open: Option<SubsectionView>,
    pub board: BoardView,
}

/// The builder before the first line.
pub open spec fn spec_board_init() -> BoardParserView {
    BoardParserView {
        open: None,
        board: BoardView {
            thickness: None,
            outline_shapes: Seq::empty(),
            attributes: Seq::empty(),
            subsections: Seq::empty(),
        },
    }
}

/// The board of `p` with the open sub-record closed.
pub open spec fn spec_board_done(p: BoardParserView) -> BoardView {
    match p.open {
        Some(sub) => BoardView { subsections: p.board.subsections.push(sub), ..p.board },
        None => p.board,
    }
}

/// The builder `p` after the line `kp`. Shapes and attributes go to the open
/// sub-record, or to the board where none is open. `TRACK`, `FILLED` and
/// `TEXT` are decoded and then need an open artwork. `CUTOUT`, `MASK` and
/// `ARTWORK` close the open sub-record and open the next. `THICKNESS` belongs
/// to the board: it closes the open sub-record.
pub open spec fn spec_board_step(p: BoardParserView, kp: KeywordParamView) -> Result<
    BoardParserView,
    ParseErrorView,
> {
    let closed = spec_board_done(p);
    if Keyword::spec_of(kp.keyword) == Keyword::Attribute {
        match whole(spec_attrib_ref(kp.parameter)) {
            Err(e) => Err(e),
            Ok(a) => match p.open {
                Some(sub) => Ok(BoardParserView { open: Some(spec_subsection_with(sub, a)), ..p }),
                None => Ok(
                    BoardParserView {
                        board: BoardView { attributes: p.board.attributes.push(a), ..p.board },
                        ..p
                    },
                ),
            },
        }
    } else if let Some(shape) = spec_outline(kp) {
        match shape {
            Err(e) => Err(e),
            Ok(o) => match p.open {
                Some(sub) => Ok(
                    BoardParserView { open: Some(spec_subsection_with_shape(sub, o)), ..p },
                ),
                None => Ok(
                    BoardParserView {
                        board: BoardView {
                            outline_shapes: p.board.outline_shapes.push(o),
                            ..p.board
                        },
                        ..p
                    },
                ),
            },
        }
    } else if let Some(part) = spec_artwork_only(kp) {
        match part {
            Err(e) => Err(e),
            Ok(c) => match p.open {
                Some(SubsectionView::Artwork(v)) => Ok(
                    BoardParserView {
                        open: Some(
                            SubsectionView::Artwork(
                                ArtworkView { components: v.components.push(c), ..v },
                            ),
                        ),
                        ..p
                    },
                ),
                _ => Err(ParseErrorView::ArtworkOnly { keyword: kp.keyword }),
            },
        }
    } else if let Some(sub) = spec_subsection_new(kp) {
        match sub {
            Err(e) => Err(e),
            Ok(sub) => Ok(BoardParserView { open: Some(sub), board: closed }),
        }
    } else if Keyword::spec_of(kp.keyword) == Keyword::Thickness {
        match first_wins(closed.thickness, whole(spec_number(kp.parameter))) {
            Err(e) => Err(e),
            Ok(thickness) => Ok(
                BoardParserView { open: None, board: BoardView { thickness, ..closed } },
            ),
        }
    } else {
        Err(
            ParseErrorView::UnexpectedKeyword { section: SectionKind::Board, keyword: kp.keyword },
        )
    }
}

/// The board that the lines of a `BOARD` section describe.
pub open spec fn spec_parse_board(lines: Seq<KeywordParamView>) -> Result<
    BoardView,
    ParseErrorView,
> {
    match run(
        |s: BoardParserView, kp: KeywordParamView| spec_board_step(s, kp),
        spec_board_init(),
        lines,
    ) {
        Ok(state) => Ok(spec_board_done(state)),
        Err(e) => Err(e),
    }
}

/// The state of the builder of the board after the lines `lines`.
pub open spec fn spec_board_run(lines: Seq<KeywordParamView>) -> Result<
    BoardParserView,
    ParseErrorView,
> {
    run(|s: BoardParserView, kp: KeywordParamView| spec_board_step(s, kp), spec_board_init(), lines)
}

/// An attribute belongs to what is open: to the open sub-record, which it
/// leaves open, and else to the board. Nothing else changes.
pub proof fn lemma_board_attribute_scope(p: BoardParserView, kp: KeywordParamView)
    requires
        Keyword::spec_of(kp.keyword) == Keyword::Attribute,
        spec_attrib_ref(kp.parameter) is Ok,
    ensures
        ({
            let a = spec_attrib_ref(kp.parameter)->Ok_0.1;
            spec_board_step(p, kp) == Ok::<BoardParserView, ParseErrorView>(
                match p.open {
                    Some(sub) => BoardParserView {
                        open: Some(spec_subsection_with(sub, a)),
                        board: p.board,
                    },
                    None => BoardParserView {
                        open: None,
                        board: BoardView { attributes: p.board.attributes.push(a), ..p.board },
                    },
                },
            )
        }),
{
}

/// An attribute line right behind the line that opens a sub-record belongs
/// to the sub-record and not to the board; the same attribute line right
/// before it belongs to the board and not to the sub-record.
pub proof fn lemma_attribute_follows_position(opener: KeywordParamView, attribute: KeywordParamView)
    requires
        spec_subsection_new(opener) matches Some(Ok(_)),
        Keyword::spec_of(attribute.keyword) == Keyword::Attribute,
        spec_attrib_ref(attribute.parameter) is Ok,
    ensures
        ({
            let sub = spec_subsection_new(opener)->0->Ok_0;
            let a = spec_attrib_ref(attribute.parameter)->Ok_0.1;
            let empty = spec_board_init().board;
            &&& spec_parse_board(seq![opener, attribute]) == Ok::<BoardView, ParseErrorView>(
                BoardView { subsections: seq![spec_subsection_with(sub, a)], ..empty },
            )
            &&& spec_parse_board(seq![attribute, opener]) == Ok::<BoardView, ParseErrorView>(
                BoardView { attributes: seq![a], subsections: seq![sub], ..empty },
            )
        }),
{
    let step = |s: BoardParserView, kp: KeywordParamView| spec_board_step(s, kp);
    let init = spec_board_init();
    let sub = spec_subsection_new(opener)->0->Ok_0;
    let a = spec_attrib_ref(attribute.parameter)->Ok_0.1;
    lemma_run_one(step, init, opener);
    lemma_run_one(step, init, attribute);
    lemma_run_push(step, init, seq![opener], attribute);
    lemma_run_push(step, init, seq![attribute], opener);
    assert(seq![opener].push(attribute) =~= seq![opener, attribute]);
    assert(seq![attribute].push(opener) =~= seq![attribute, opener]);
    let first = spec_board_step(init, opener)->Ok_0;
    assert(first.open == Some(sub));
    lemma_board_attribute_scope(first, attribute);
    lemma_board_attribute_scope(init, attribute);
    assert(Seq::<SubsectionView>::empty().push(spec_subsection_with(sub, a)) =~= seq![
        spec_subsection_with(sub, a),
    ]);
    assert(Seq::<SubsectionView>::empty().push(sub) =~= seq![sub]);
    assert(Seq::<AttributeView>::empty().push(a) =~= seq![a]);
}

/// The thickness of the board is decided by its first line: a further
/// `THICKNESS` line where the thickness is set changes no field of the board,
/// whatever it holds, and is no error. It still closes the open sub-record.
pub proof fn lemma_board_thickness_first_wins(p: BoardParserView, kp: KeywordParamView)
    requires
        Keyword::spec_of(kp.keyword) == Keyword::Thickness,
        p.board.thickness is Some,
    ensures
        spec_board_step(p, kp) == Ok::<BoardParserView, ParseErrorView>(
            BoardParserView { open: None, board: spec_board_done(p) },
        ),
{
}

/// The line of a part of an artwork.
pub open spec fn artwork_component_line(v: ArtworkComponentView) -> Seq<char> {
    match v {
        ArtworkComponentView::Outline(o) => outline_line(o),
        ArtworkComponentView::Track(t) => "TRACK "@ + string_text(t),
        ArtworkComponentView::Filled(b) => "FILLED "@ + flag_text("YES"@, b),
        ArtworkComponentView::Text(t) => text_line(t),
    }
}

/// The lines of the parts `v` of an artwork.
pub open spec fn artwork_components_text(v: Seq<ArtworkComponentView>) -> Seq<char> {
    join_lines(v.map_values(|c: ArtworkComponentView| artwork_component_line(c)))
}

/// The lines of a cutout: its opening line, its shapes, its attributes.
pub open spec fn cutout_text(v: CutoutView) -> Seq<char> {
    join_lines(
        seq![
            "CUTOUT "@ + string_text(v.name),
            outlines_text(v.shapes),
            attributes_text(v.attributes),
        ],
    )
}

/// The lines of a mask: its opening line, its shapes, its attributes.
pub open spec fn mask_text(v: MaskView) -> Seq<char> {
    join_lines(
        seq![
            "MASK "@ + string_text(v.name) + " "@ + layer_text(v.layer),
            outlines_text(v.shapes),
            attributes_text(v.attributes),
        ],
    )
}

/// The lines of an artwork: its opening line, its parts, its attributes.
pub open spec fn artwork_text(v: ArtworkView) -> Seq<char> {
    join_lines(
        seq![
            "ARTWORK "@ + string_text(v.name) + " "@ + layer_text(v.layer),
            artwork_components_text(v.components),
            attributes_text(v.attributes),
        ],
    )
}

/// The lines of a sub-record of the board.
pub open spec fn subsection_text(v: SubsectionView) -> Seq<char> {
    match v {
        SubsectionView::Cutout(c) => cutout_text(c),
        SubsectionView::Mask(m) => mask_text(m),
        SubsectionView::Artwork(a) => artwork_text(a),
    }
}

/// The lines of the sub-records `v` of the board.
pub open spec fn subsections_text(v: Seq<SubsectionView>) -> Seq<char> {
    join_lines(v.map_values(|s: SubsectionView| subsection_text(s)))
}

/// The lines of the thickness of the board: none where it is not given.
pub open spec fn thickness_lines(v: Option<Seq<char>>) -> Seq<Seq<char>> {
    match v {
        Some(t) => seq!["THICKNESS "@ + t],
        None => Seq::empty(),
    }
}

/// The text of the `BOARD` section: the opening line, the thickness, the
/// outline, the attributes, the sub-records and the closing line.
pub open spec fn board_text(v: BoardView) -> Seq<char> {
    join_lines(
        seq!["$BOARD"@] + thickness_lines(v.thickness) + seq![
            outlines_text(v.outline_shapes),
            attributes_text(v.attributes),
            subsections_text(v.subsections),
            "$ENDBOARD"@,
        ],
    )
}

impl BoardShape {
    /// Decodes a line that describes a shape; `None` for a line with another
    /// keyword.
    pub fn from_line(kp: &KeywordParam) -> (r: Option<Result<BoardShape, ParseError>>)
        ensures
            match r {
                Some(shape) => spec_outline(kp.deep_view()) matches Some(m) && agrees_whole(
                    shape,
                    m,
                ),
                None => spec_outline(kp.deep_view()) is None,
            },
    {
        match Keyword::of(kp.keyword) {
            Keyword::Line => Some(
                match line_ref(kp.parameter) {
                    Ok((_, v)) => Ok(BoardShape::Line(v)),
                    Err(e) => Err(e),
                },
            ),
            Keyword::Arc => Some(
                match arc_ref(kp.parameter) {
                    Ok((_, v)) => Ok(BoardShape::Arc(v)),
                    Err(e) => Err(e),
                },
            ),
            Keyword::Circle => Some(
                match circle_ref(kp.parameter) {
                    Ok((_, v)) => Ok(BoardShape::Circle(v)),
                    Err(e) => Err(e),
                },
            ),
            Keyword::Rectangle => Some(
                match rectangle_ref(kp.parameter) {
                    Ok((_, v)) => Ok(BoardShape::Rectangle(v)),
                    Err(e) => Err(e),
                },
            ),
            _ => None,
        }
    }

    /// The shape as a part of an artwork.
    pub fn into_artwork(self) -> (r: ArtworkComponent)
        ensures
            r.deep_view() == ArtworkComponentView::Outline(self.deep_view()),
    {
        match self {
            BoardShape::Line(v) => ArtworkComponent::Line(v),
            BoardShape::Arc(v) => ArtworkComponent::Arc(v),
            BoardShape::Circle(v) => ArtworkComponent::Circle(v),
            BoardShape::Rectangle(v) => ArtworkComponent::Rectangle(v),
        }
    }
}

impl Cutout {
    /// The cutout with the given name, and nothing in it.
    pub fn new(name: &str) -> (r: Cutout)
        ensures
            r.deep_view() == (CutoutView {
                name: name@,
                shapes: Seq::empty(),
                attributes: Seq::empty(),
            }),
    {
        let r = Cutout { name: name.to_owned(), shapes: Vec::new(), attributes: Vec::new() };
        assert(r.shapes.deep_view() =~= Seq::empty());
        assert(r.attributes.deep_view() =~= Seq::empty());
        r
    }
}

impl Mask {
    /// The mask with the given name and layer, and nothing in it.
    pub fn new(name: &str, layer: Layer) -> (r: Mask)
        ensures
            r.deep_view() == (MaskView {
                name: name@,
                layer,
                shapes: Seq::empty(),
                attributes: Seq::empty(),
            }),
    {
        let r = Mask { name: name.to_owned(), layer, shapes: Vec::new(), attributes: Vec::new() };
        assert(r.shapes.deep_view() =~= Seq::empty());
        assert(r.attributes.deep_view() =~= Seq::empty());
        r
    }
}

impl Text {
    /// The text with the given origin and parameters.
    pub fn new(origin: XYRef, text: TextPar) -> (r: Text)
        ensures
            r == (Text { origin, text }),
    {
        Text { origin, text }
    }

    /// Decodes the parameter of a `TEXT` line.
    pub fn from_parameters(params: &str) -> (r: Result<Text, ParseError>)
        ensures
            agrees_whole(r, spec_text_line(params@)),
    {
        let (s1, origin) = x_y_ref(params)?;
        let (_, text) = sp_text_par(s1)?;
        Ok(Text::new(origin, text))
    }
}

impl Artwork {
    /// The artwork with the given name and layer, and nothing in it.
    pub fn new(name: &str, layer: Layer) -> (r: Artwork)
        ensures
            r.deep_view() == (ArtworkView {
                name: name@,
                layer,
                components: Seq::empty(),
                attributes: Seq::empty(),
            }),
    {
        let r = Artwork {
            name: name.to_owned(),
            layer,
            components: Vec::new(),
            attributes: Vec::new(),
        };
        assert(r.components.deep_view() =~= Seq::empty());
        assert(r.attributes.deep_view() =~= Seq::empty());
        r
    }
}

impl ArtworkComponent {
    /// Decodes a line that only an artwork admits; `None` for a line with
    /// another keyword.
    pub fn from_line(kp: &KeywordParam) -> (r: Option<Result<ArtworkComponent, ParseError>>)
        ensures
            match r {
                Some(part) => spec_artwork_only(kp.deep_view()) matches Some(m) && agrees_whole(
                    part,
                    m,
                ),
                None => spec_artwork_only(kp.deep_view()) is None,
            },
    {
        match Keyword::of(kp.keyword) {
            Keyword::Track => Some(
                match track_name(kp.parameter) {
                    Ok((_, v)) => Ok(ArtworkComponent::Track(v)),
                    Err(e) => Err(e),
                },
            ),
            Keyword::Filled => Some(
                match filled_ref(kp.parameter) {
                    Ok((_, v)) => Ok(ArtworkComponent::Filled(v)),
                    Err(e) => Err(e),
                },
            ),
            Keyword::Text => Some(
                match Text::from_parameters(kp.parameter) {
                    Ok(v) => Ok(ArtworkComponent::Text(v)),
                    Err(e) => Err(e),
                },
            ),
            _ => None,
        }
    }
}

/// Decodes the name and the layer of a `MASK` or `ARTWORK` line.
pub fn name_layer(params: &str) -> (r: Result<(String, Layer), ParseError>)
    ensures
        match r {
            Ok((name, layer)) => spec_name_layer(params@) == Ok::<
                (Seq<char>, Layer),
                ParseErrorView,
            >((name@, layer)),
            Err(e) => spec_name_layer(params@) == Err::<(Seq<char>, Layer), ParseErrorView>(
                e.deep_view(),
            ),
        },
{
    let (s1, name) = string(params)?;
    let (_, layer) = sp_layer(s1)?;
    Ok((name, layer))
}

impl Subsection {
    /// Decodes a line that opens a sub-record; `None` for a line with another
    /// keyword.
    pub fn from_line(kp: &KeywordParam) -> (r: Option<Result<Subsection, ParseError>>)
        ensures
            match r {
                Some(sub) => spec_subsection_new(kp.deep_view()) matches Some(m) && agrees_whole(
                    sub,
                    m,
                ),
                None => spec_subsection_new(kp.deep_view()) is None,
            },
    {
        match Keyword::of(kp.keyword) {
            Keyword::Cutout => Some(
                match string(kp.parameter) {
                    Ok((_, name)) => Ok(Subsection::Cutout(Cutout::new(name.as_str()))),
                    Err(e) => Err(e),
                },
            ),
            Keyword::Mask => Some(
                match name_layer(kp.parameter) {
                    Ok((name, layer)) => Ok(Subsection::Mask(Mask::new(name.as_str(), layer))),
                    Err(e) => Err(e),
                },
            ),
            Keyword::Artwork => Some(
                match name_layer(kp.parameter) {
                    Ok((name, layer)) => Ok(
                        Subsection::Artwork(Artwork::new(name.as_str(), layer)),
                    ),
                    Err(e) => Err(e),
                },
            ),
            _ => None,
        }
    }

    /// The sub-record with the attribute `a` added.
    pub fn with_attribute(self, a: Attribute) -> (r: Subsection)
        ensures
            r.deep_view() == spec_subsection_with(self.deep_view(), a.deep_view()),
    {
        match self {
            Subsection::Cutout(mut v) => {
                let ghost before = v.attributes.deep_view();
                v.attributes.push(a);
                assert(v.attributes.deep_view() =~= before.push(a.deep_view()));
                Subsection::Cutout(v)
            },
            Subsection::Mask(mut v) => {
                let ghost before = v.attributes.deep_view();
                v.attributes.push(a);
                assert(v.attributes.deep_view() =~= before.push(a.deep_view()));
                Subsection::Mask(v)
            },
            Subsection::Artwork(mut v) => {
                let ghost before = v.attributes.deep_view();
                v.attributes.push(a);
                assert(v.attributes.deep_view() =~= before.push(a.deep_view()));
                Subsection::Artwork(v)
            },
        }
    }

    /// The sub-record with the shape `shape` added.
    pub fn with_shape(self, shape: BoardShape) -> (r: Subsection)
        ensures
            r.deep_view() == spec_subsection_with_shape(self.deep_view(), shape.deep_view()),
    {
        match self {
            Subsection::Cutout(mut v) => {
                let ghost before = v.shapes.deep_view();
                v.shapes.push(shape);
                assert(v.shapes.deep_view() =~= before.push(shape.deep_view()));
                Subsection::Cutout(v)
            },
            Subsection::Mask(mut v) => {
                let ghost before = v.shapes.deep_view();
                v.shapes.push(shape);
                assert(v.shapes.deep_view() =~= before.push(shape.deep_view()));
                Subsection::Mask(v)
            },
            Subsection::Artwork(mut v) => {
                let ghost before = v.components.deep_view();
                let part = shape.into_artwork();
                v.components.push(part);
                assert(v.components.deep_view() =~= before.push(part.deep_view()));
                Subsection::Artwork(v)
            },
        }
    }
}

/// The builder of the `BOARD` section.
#[derive(Debug, Clone, PartialEq, Eq)]
pub struct BoardParser {
    /// The sub-record that is open.
    pub state: Option<Subsection>,
    /// The board as far as it is built.
    pub board: Board,
}

impl DeepView for BoardParser {
    type V = BoardParserView;

    open spec fn deep_view(&self) -> BoardParserView {
        BoardParserView { open: self.state.deep_view(), board: self.board.deep_view() }
    }
}

impl BoardParser {
    /// The builder before the first line.
    pub fn new() -> (r: BoardParser)
        ensures
            r.deep_view() == spec_board_init(),
    {
        let r = BoardParser {
            state: None,
            board: Board {
                thickness: None,
                outline_shapes: Vec::new(),
                attributes: Vec::new(),
                subsections: Vec::new(),
            },
        };
        assert(r.board.outline_shapes.deep_view() =~= Seq::empty());
        assert(r.board.attributes.deep_view() =~= Seq::empty());
        assert(r.board.subsections.deep_view() =~= Seq::empty());
        r
    }

    /// Closes the open sub-record.
    pub fn done(&mut self)
        ensures
            final(self).state is None,
            final(self).board.deep_view() == spec_board_done(old(self).deep_view()),
    {
        if let Some(sub) = self.state.take() {
            let ghost before = self.board.subsections.deep_view();
            self.board.subsections.push(sub);
            assert(self.board.subsections.deep_view() =~= before.push(sub.deep_view()));
        }
    }

    /// Adds `part` to the open artwork. Outside an artwork this is the error
    /// that names `keyword`, and the builder is as before.
    pub fn add_to_artwork(&mut self, part: ArtworkComponent, keyword: &str) -> (r: Result<
        (),
        ParseError,
    >)
        ensures
            match r {
                Ok(_) => old(self).deep_view().open matches Some(SubsectionView::Artwork(v))
                    && final(self).deep_view() == (BoardParserView {
                    open: Some(
                        SubsectionView::Artwork(
                            ArtworkView { components: v.components.push(part.deep_view()), ..v },
                        ),
                    ),
                    ..old(self).deep_view()
                }),
                Err(e) => !(old(self).deep_view().open matches Some(SubsectionView::Artwork(_)))
                    && e.deep_view() == (ParseErrorView::ArtworkOnly { keyword: keyword@ })
                    && final(self).deep_view() == old(self).deep_view(),
            },
    {
        match self.state.take() {
            Some(Subsection::Artwork(mut v)) => {
                let ghost before = v.components.deep_view();
                v.components.push(part);
                assert(v.components.deep_view() =~= before.push(part.deep_view()));
                self.state = Some(Subsection::Artwork(v));
                Ok(())
            },
            other => {
                self.state = other;
                Err(ParseError::ArtworkOnly { keyword: keyword.to_owned() })
            },
        }
    }

    /// Takes in the line `kp`. On an error the builder is as before.
    pub fn ingest(&mut self, kp: &KeywordParam) -> (r: Result<(), ParseError>)
        ensures
            match r {
                Ok(_) => spec_board_step(old(self).deep_view(), kp.deep_view()) == Ok::<
                    BoardParserView,
                    ParseErrorView,
                >(final(self).deep_view()),
                Err(e) => spec_board_step(old(self).deep_view(), kp.deep_view()) == Err::<
                    BoardParserView,
                    ParseErrorView,
                >(e.deep_view()) && final(self).deep_view() == old(self).deep_view(),
            },
    {
        let key = Keyword::of(kp.keyword);
        if let Keyword::Attribute = key {
            let (_, a) = attrib_ref(kp.parameter)?;
            match self.state.take() {
                Some(sub) => {
                    self.state = Some(sub.with_attribute(a));
                },
                None => {
                    let ghost before = self.board.attributes.deep_view();
                    self.board.attributes.push(a);
                    assert(self.board.attributes.deep_view() =~= before.push(a.deep_view()));
                },
            }
            return Ok(());
        }
        if let Some(shape) = BoardShape::from_line(kp) {
            let shape = shape?;
            match self.state.take() {
                Some(sub) => {
                    self.state = Some(sub.with_shape(shape));
                },
                None => {
                    let ghost before = self.board.outline_shapes.deep_view();
                    self.board.outline_shapes.push(shape);
                    assert(self.board.outline_shapes.deep_view() =~= before.push(
                        shape.deep_view(),
                    ));
                },
            }
            return Ok(());
        }
        if let Some(part) = ArtworkComponent::from_line(kp) {
            let part = part?;
            return self.add_to_artwork(part, kp.keyword);
        }
        if let Some(sub) = Subsection::from_line(kp) {
            let sub = sub?;
            self.done();
            self.state = Some(sub);
            return Ok(());
        }
        match key {
            Keyword::Thickness => {
                if self.board.thickness.is_none() {
                    let (_, t) = number(kp.parameter)?;
                    self.done();
                    self.board.thickness = Some(t);
                } else {
                    self.done();
                }
                Ok(())
            },
            _ => Err(unexpected(SectionKind::Board, kp.keyword)),
        }
    }

    /// Closes the open sub-record and hands out the board.
    pub fn finalize(self) -> (r: Board)
        ensures
            r.deep_view() == spec_board_done(self.deep_view()),
    {
        let mut parser = self;
        parser.done();
        parser.board
    }
}

impl Board {
    /// Builds the board from the lines of a `BOARD` section.
    pub fn new(params: &[KeywordParam]) -> (r: Result<Board, ParseError>)
        ensures
            agrees_whole(r, spec_parse_board(params.deep_view())),
    {
        let ghost step = |s: BoardParserView, kp: KeywordParamView| spec_board_step(s, kp);
        let ghost lines = params.deep_view();
        let mut bp = BoardParser::new();
        let mut i: usize = 0;
        while i < params.len()
            invariant
                0 <= i <= params.len(),
                lines == params.deep_view(),
                step == |s: BoardParserView, kp: KeywordParamView| spec_board_step(s, kp),
                run(step, spec_board_init(), lines.take(i as int)) == Ok::<
                    BoardParserView,
                    ParseErrorView,
                >(bp.deep_view()),
            decreases params.len() - i,
        {
            proof {
                lemma_run_step(step, spec_board_init(), lines, i as int);
                lemma_run_error(step, spec_board_init(), lines, i as int + 1);
                assert(lines[i as int] == params[i as int].deep_view());
            }
            bp.ingest(&params[i])?;
            i += 1;
        }
        assert(lines.take(i as int) == lines);
        Ok(bp.finalize())
    }
}

impl ToGencadString for BoardShape {
    open spec fn gencad(&self) -> Seq<char> {
        outline_line(self.deep_view())
    }

    fn to_gencad_string(&self) -> (r: String) {
        match self {
            BoardShape::Line(v) => concat("LINE ", v.to_gencad_string().as_str()),
            BoardShape::Arc(v) => concat("ARC ", v.to_gencad_string().as_str()),
            BoardShape::Circle(v) => concat("CIRCLE ", v.to_gencad_string().as_str()),
            BoardShape::Rectangle(v) => concat("RECTANGLE ", v.to_gencad_string().as_str()),
        }
    }
}

impl ToGencadString for Vec<BoardShape> {
    open spec fn gencad(&self) -> Seq<char> {
        outlines_text(self.deep_view())
    }

    fn to_gencad_string(&self) -> (r: String) {
        let lines = render_all(self);
        assert(lines.deep_view() =~= self.deep_view().map_values(
            |o: OutlineView| outline_line(o),
        ));
        join(&lines)
    }
}

impl ToGencadString for Cutout {
    open spec fn gencad(&self) -> Seq<char> {
        cutout_text(self.deep_view())
    }

    fn to_gencad_string(&self) -> (r: String) {
        let mut lines: Vec<String> = Vec::new();
        lines.push(concat("CUTOUT ", self.name.to_gencad_string().as_str()));
        lines.push(self.shapes.to_gencad_string());
        lines.push(self.attributes.to_gencad_string());
        assert(lines.deep_view() =~= seq![
            "CUTOUT "@ + string_text(self.name@),
            outlines_text(self.shapes.deep_view()),
            attributes_text(self.attributes.deep_view()),
        ]);
        join(&lines)
    }
}

impl ToGencadString for Mask {
    open spec fn gencad(&self) -> Seq<char> {
        mask_text(self.deep_view())
    }

    fn to_gencad_string(&self) -> (r: String) {
        let mut lines: Vec<String> = Vec::new();
        let mut head = concat("MASK ", self.name.to_gencad_string().as_str());
        head.append(" ");
        head.append(self.layer.to_gencad_string().as_str());
        lines.push(head);
        lines.push(self.shapes.to_gencad_string());
        lines.push(self.attributes.to_gencad_string());
        assert(lines.deep_view() =~= seq![
            "MASK "@ + string_text(self.name@) + " "@ + layer_text(self.layer),
            outlines_text(self.shapes.deep_view()),
            attributes_text(self.attributes.deep_view()),
        ]);
        join(&lines)
    }
}

impl ToGencadString for Text {
    open spec fn gencad(&self) -> Seq<char> {
        text_line(self.deep_view())
    }

    fn to_gencad_string(&self) -> (r: String) {
        let mut out = concat("TEXT ", self.origin.to_gencad_string().as_str());
        out.append(" ");
        out.append(self.text.to_gencad_string().as_str());
        out
    }
}

impl ToGencadString for ArtworkComponent {
    open spec fn gencad(&self) -> Seq<char> {
        artwork_component_line(self.deep_view())
    }

    fn to_gencad_string(&self) -> (r: String) {
        match self {
            ArtworkComponent::Line(v) => concat("LINE ", v.to_gencad_string().as_str()),
            ArtworkComponent::Arc(v) => concat("ARC ", v.to_gencad_string().as_str()),
            ArtworkComponent::Circle(v) => concat("CIRCLE ", v.to_gencad_string().as_str()),
            ArtworkComponent::Rectangle(v) => concat("RECTANGLE ", v.to_gencad_string().as_str()),
            ArtworkComponent::Track(v) => concat("TRACK ", v.to_gencad_string().as_str()),
            ArtworkComponent::Filled(v) => concat("FILLED ", flag_to_string("YES", *v).as_str()),
            ArtworkComponent::Text(v) => v.to_gencad_string(),
        }
    }
}

impl ToGencadString for Vec<ArtworkComponent> {
    open spec fn gencad(&self) -> Seq<char> {
        artwork_components_text(self.deep_view())
    }

    fn to_gencad_string(&self) -> (r: String) {
        let lines = render_all(self);
        assert(lines.deep_view() =~= self.deep_view().map_values(
            |c: ArtworkComponentView| artwork_component_line(c),
        ));
        join(&lines)
    }
}

impl ToGencadString for Artwork {
    open spec fn gencad(&self) -> Seq<char> {
        artwork_text(self.deep_view())
    }

    fn to_gencad_string(&self) -> (r: String) {
        let mut lines: Vec<String> = Vec::new();
        let mut head = concat("ARTWORK ", self.name.to_gencad_string().as_str());
        head.append(" ");
        head.append(self.layer.to_gencad_string().as_str());
        lines.push(head);
        lines.push(self.components.to_gencad_string());
        lines.push(self.attributes.to_gencad_string());
        assert(lines.deep_view() =~= seq![
            "ARTWORK "@ + string_text(self.name@) + " "@ + layer_text(self.layer),
            artwork_components_text(self.components.deep_view()),
            attributes_text(self.attributes.deep_view()),
        ]);
        join(&lines)
    }
}

impl ToGencadString for Subsection {
    open spec fn gencad(&self) -> Seq<char> {
        subsection_text(self.deep_view())
    }

    fn to_gencad_string(&self) -> (r: String) {
        match self {
            Subsection::Cutout(s) => s.to_gencad_string(),
            Subsection::Mask(s) => s.to_gencad_string(),
            Subsection::Artwork(s) => s.to_gencad_string(),
        }
    }
}

impl ToGencadString for Vec<Subsection> {
    open spec fn gencad(&self) -> Seq<char> {
        subsections_text(self.deep_view())
    }

    fn to_gencad_string(&self) -> (r: String) {
        let lines = render_all(self);
        assert(lines.deep_view() =~= self.deep_view().map_values(
            |s: SubsectionView| subsection_text(s),
        ));
        join(&lines)
    }
}

impl ToGencadString for Board {
    open spec fn gencad(&self) -> Seq<char> {
        board_text(self.deep_view())
    }

    fn to_gencad_string(&self) -> (r: String) {
        let mut lines: Vec<String> = Vec::new();
        push_line(&mut lines, String::from_str("$BOARD"));
        if let Some(thickness) = &self.thickness {
            push_line(&mut lines, concat("THICKNESS ", thickness.as_str()));
        }
        push_line(&mut lines, self.outline_shapes.to_gencad_string());
        push_line(&mut lines, self.attributes.to_gencad_string());
        push_line(&mut lines, self.subsections.to_gencad_string());
        push_line(&mut lines, String::from_str("$ENDBOARD"));
        assert(lines.deep_view() =~= seq!["$BOARD"@] + thickness_lines(
            self.thickness.deep_view(),
        ) + seq![
            outlines_text(self.outline_shapes.deep_view()),
            attributes_text(self.attributes.deep_view()),
            subsections_text(self.subsections.deep_view()),
            "$ENDBOARD"@,
        ]);
        join(&lines)
    }
}

/// Whether the part `v` of an artwork can be written and read back.
pub open spec fn artwork_component_ok(v: ArtworkComponentView) -> bool {
    match v {
        ArtworkComponentView::Outline(o) => outline_ok(o),
        ArtworkComponentView::Track(t) => is_writable(t),
        ArtworkComponentView::Filled(_) => true,
        ArtworkComponentView::Text(t) => text_ok(t),
    }
}

/// Whether the sub-record `v` of the board can be written and read back.
pub open spec fn subsection_ok(v: SubsectionView) -> bool {
    match v {
        SubsectionView::Cutout(c) => is_writable(c.name) && outlines_ok(c.shapes) && attributes_ok(
            c.attributes,
        ),
        SubsectionView::Mask(m) => is_writable(m.name) && outlines_ok(m.shapes) && attributes_ok(
            m.attributes,
        ),
        SubsectionView::Artwork(a) => {
            &&& is_writable(a.name)
            &&& forall|i: int|
                0 <= i < a.components.len() ==> artwork_component_ok(#[trigger] a.components[i])
            &&& attributes_ok(a.attributes)
        },
    }
}

/// Whether the board `v` can be written and read back.
pub open spec fn board_ok(v: BoardView) -> bool {
    &&& v.thickness matches Some(t) ==> is_number(t)
    &&& outlines_ok(v.outline_shapes)
    &&& attributes_ok(v.attributes)
    &&& forall|i: int| 0 <= i < v.subsections.len() ==> subsection_ok(#[trigger] v.subsections[i])
}

/// The parameter of the line of a text.
pub open spec fn text_parameter(v: TextView) -> Seq<char> {
    x_y_text(v.origin) + " "@ + text_par_text(v.text)
}

/// The statement of a part of an artwork.
pub open spec fn artwork_component_statement(v: ArtworkComponentView) -> KeywordParamView {
    match v {
        ArtworkComponentView::Outline(o) => outline_statement(o),
        ArtworkComponentView::Track(t) => KeywordParamView {
            keyword: "TRACK"@,
            parameter: string_text(t),
        },
        ArtworkComponentView::Filled(b) => KeywordParamView {
            keyword: "FILLED"@,
            parameter: flag_text("YES"@, b),
        },
        ArtworkComponentView::Text(t) => KeywordParamView {
            keyword: "TEXT"@,
            parameter: text_parameter(t),
        },
    }
}

/// The parameter of the opening line of a mask or an artwork.
pub open spec fn name_layer_parameter(name: Seq<char>, layer: Layer) -> Seq<char> {
    string_text(name) + " "@ + layer_text(layer)
}

/// The statement of the opening line of a sub-record.
pub open spec fn subsection_opener(v: SubsectionView) -> KeywordParamView {
    match v {
        SubsectionView::Cutout(c) => KeywordParamView {
            keyword: "CUTOUT"@,
            parameter: string_text(c.name),
        },
        SubsectionView::Mask(m) => KeywordParamView {
            keyword: "MASK"@,
            parameter: name_layer_parameter(m.name, m.layer),
        },
        SubsectionView::Artwork(a) => KeywordParamView {
            keyword: "ARTWORK"@,
            parameter: name_layer_parameter(a.name, a.layer),
        },
    }
}

/// The statements of what stands in a sub-record, without its attributes.
pub open spec fn subsection_items(v: SubsectionView) -> Seq<KeywordParamView> {
    match v {
        SubsectionView::Cutout(c) => c.shapes.map_values(|o: OutlineView| outline_statement(o)),
        SubsectionView::Mask(m) => m.shapes.map_values(|o: OutlineView| outline_statement(o)),
        SubsectionView::Artwork(a) => a.components.map_values(
            |c: ArtworkComponentView| artwork_component_statement(c),
        ),
    }
}

/// The attributes of a sub-record.
pub open spec fn subsection_attributes(v: SubsectionView) -> Seq<AttributeView> {
    match v {
        SubsectionView::Cutout(c) => c.attributes,
        SubsectionView::Mask(m) => m.attributes,
        SubsectionView::Artwork(a) => a.attributes,
    }
}

/// The statements of a sub-record, in the order of its lines.
pub open spec fn subsection_statements(v: SubsectionView) -> Seq<KeywordParamView> {
    seq![subsection_opener(v)] + subsection_items(v) + subsection_attributes(v).map_values(
        |a: AttributeView| attribute_statement(a),
    )
}

/// The sub-record that the opening line of `v` opens.
pub open spec fn subsection_opened(v: SubsectionView) -> SubsectionView {
    match v {
        SubsectionView::Cutout(c) => SubsectionView::Cutout(
            CutoutView { shapes: Seq::empty(), attributes: Seq::empty(), ..c },
        ),
        SubsectionView::Mask(m) => SubsectionView::Mask(
            MaskView { shapes: Seq::empty(), attributes: Seq::empty(), ..m },
        ),
        SubsectionView::Artwork(a) => SubsectionView::Artwork(
            ArtworkView { components: Seq::empty(), attributes: Seq::empty(), ..a },
        ),
    }
}

/// A name and a layer alone on their line are read back.
proof fn lemma_whole_name_layer(name: Seq<char>, layer: Layer)
    requires
        is_writable(name),
    ensures
        spec_name_layer(name_layer_parameter(name, layer)) == Ok::<
            (Seq<char>, Layer),
            ParseErrorView,
        >((name, layer)),
        one_line(name_layer_parameter(name, layer)),
{
    reveal_strlit(" ");
    let none = Seq::<char>::empty();
    let tail1 = " "@ + (layer_text(layer) + none);
    lemma_sp_layer_round_trip(layer, none);
    lemma_string_round_trip(name, tail1);
    assert(name_layer_parameter(name, layer) =~= string_text(name) + tail1);
    lemma_string_one_line(name);
    lemma_layer_text_one_line(layer);
    lemma_one_line_concat(string_text(name), " "@);
    lemma_one_line_concat(string_text(name) + " "@, layer_text(layer));
}

/// The statement of a part of an artwork is read back as the part, and its
/// line is read as its statement.
proof fn lemma_whole_artwork_component(v: ArtworkComponentView)
    requires
        artwork_component_ok(v),
    ensures
        Keyword::spec_of(artwork_component_statement(v).keyword) != Keyword::Attribute,
        match v {
            ArtworkComponentView::Outline(o) => spec_outline(artwork_component_statement(v))
                == Some(Ok::<OutlineView, ParseErrorView>(o)),
            _ => spec_outline(artwork_component_statement(v)) is None && spec_artwork_only(
                artwork_component_statement(v),
            ) == Some(Ok::<ArtworkComponentView, ParseErrorView>(v)),
        },
        reads_as(artwork_component_line(v), seq![artwork_component_statement(v)]),
{
    reveal_strlit(" ");
    let none = Seq::<char>::empty();
    match v {
        ArtworkComponentView::Outline(o) => {
            lemma_whole_outline(o);
        },
        ArtworkComponentView::Track(t) => {
            lemma_keyword(Keyword::Track);
            reveal_strlit("TRACK ");
            reveal_strlit("TRACK");
            assert("TRACK "@ =~= "TRACK"@ + " "@);
            lemma_whole_string(t);
            lemma_reads_keyword_line("TRACK "@, "TRACK"@, string_text(t));
        },
        ArtworkComponentView::Filled(b) => {
            lemma_keyword(Keyword::Filled);
            reveal_strlit("FILLED ");
            reveal_strlit("FILLED");
            reveal_strlit("YES");
            assert("FILLED "@ =~= "FILLED"@ + " "@);
            lemma_filled_round_trip(b, none);
            assert(flag_text("YES"@, b) + none =~= flag_text("YES"@, b));
            lemma_flag_one_line("YES"@, b);
            lemma_reads_keyword_line("FILLED "@, "FILLED"@, flag_text("YES"@, b));
        },
        ArtworkComponentView::Text(t) => {
            lemma_keyword(Keyword::Text);
            reveal_strlit("TEXT ");
            reveal_strlit("TEXT");
            assert("TEXT "@ =~= "TEXT"@ + " "@);
            lemma_text_line_round_trip(t);
            lemma_x_y_one_line(t.origin);
            lemma_text_par_one_line(t.text);
            lemma_one_line_concat(x_y_text(t.origin), " "@);
            lemma_one_line_concat(x_y_text(t.origin) + " "@, text_par_text(t.text));
            lemma_reads_keyword_line("TEXT "@, "TEXT"@, text_parameter(t));
            assert(text_line(t) =~= "TEXT "@ + text_parameter(t));
        },
    }
}

/// The opening line of a sub-record is read back: it is no attribute, no
/// shape and nothing of an artwork, and opens the sub-record.
proof fn lemma_whole_opener(v: SubsectionView)
    requires
        subsection_ok(v),
    ensures
        Keyword::spec_of(subsection_opener(v).keyword) != Keyword::Attribute,
        spec_outline(subsection_opener(v)) is None,
        spec_artwork_only(subsection_opener(v)) is None,
        spec_subsection_new(subsection_opener(v)) == Some(
            Ok::<SubsectionView, ParseErrorView>(subsection_opened(v)),
        ),
        one_line(subsection_opener(v).parameter),
{
    match v {
        SubsectionView::Cutout(c) => {
            lemma_keyword(Keyword::Cutout);
            lemma_whole_string(c.name);
        },
        SubsectionView::Mask(m) => {
            lemma_keyword(Keyword::Mask);
            lemma_whole_name_layer(m.name, m.layer);
        },
        SubsectionView::Artwork(a) => {
            lemma_keyword(Keyword::Artwork);
            lemma_whole_name_layer(a.name, a.layer);
        },
    }
}

/// The text of a sub-record is read as its statements.
proof fn lemma_subsection_reads(v: SubsectionView)
    requires
        subsection_ok(v),
    ensures
        reads_as(subsection_text(v), subsection_statements(v)),
{
    reveal_strlit(" ");
    lemma_whole_opener(v);
    lemma_reads_empty();
    let none = Seq::<Seq<char>>::empty();
    assert(join_lines(none) =~= Seq::<char>::empty());
    let opener = subsection_opener(v);
    let attributes = subsection_attributes(v).map_values(|a: AttributeView| attribute_statement(a));
    let s0 = Seq::<KeywordParamView>::empty() + seq![opener];
    match v {
        SubsectionView::Cutout(c) => {
            lemma_keyword(Keyword::Cutout);
            reveal_strlit("CUTOUT ");
            reveal_strlit("CUTOUT");
            assert("CUTOUT "@ =~= "CUTOUT"@ + " "@);
            let head = "CUTOUT "@ + string_text(c.name);
            lemma_reads_keyword_line("CUTOUT "@, "CUTOUT"@, string_text(c.name));
            lemma_reads_more(none, Seq::empty(), head, seq![opener]);
            lemma_reads_outlines(c.shapes);
            lemma_reads_more(none.push(head), s0, outlines_text(c.shapes), subsection_items(v));
            lemma_reads_attributes(c.attributes);
            lemma_reads_more(
                none.push(head).push(outlines_text(c.shapes)),
                s0 + subsection_items(v),
                attributes_text(c.attributes),
                attributes,
            );
            assert(none.push(head).push(outlines_text(c.shapes)).push(
                attributes_text(c.attributes),
            ) =~= seq![head, outlines_text(c.shapes), attributes_text(c.attributes)]);
        },
        SubsectionView::Mask(m) => {
            lemma_keyword(Keyword::Mask);
            reveal_strlit("MASK ");
            reveal_strlit("MASK");
            assert("MASK "@ =~= "MASK"@ + " "@);
            let head = "MASK "@ + name_layer_parameter(m.name, m.layer);
            lemma_reads_keyword_line("MASK "@, "MASK"@, name_layer_parameter(m.name, m.layer));
            lemma_reads_more(none, Seq::empty(), head, seq![opener]);
            lemma_reads_outlines(m.shapes);
            lemma_reads_more(none.push(head), s0, outlines_text(m.shapes), subsection_items(v));
            lemma_reads_attributes(m.attributes);
            lemma_reads_more(
                none.push(head).push(outlines_text(m.shapes)),
                s0 + subsection_items(v),
                attributes_text(m.attributes),
                attributes,
            );
            assert(head =~= "MASK "@ + string_text(m.name) + " "@ + layer_text(m.layer));
            assert(none.push(head).push(outlines_text(m.shapes)).push(
                attributes_text(m.attributes),
            ) =~= seq![
                "MASK "@ + string_text(m.name) + " "@ + layer_text(m.layer),
                outlines_text(m.shapes),
                attributes_text(m.attributes),
            ]);
        },
        SubsectionView::Artwork(a) => {
            lemma_keyword(Keyword::Artwork);
            reveal_strlit("ARTWORK ");
            reveal_strlit("ARTWORK");
            assert("ARTWORK "@ =~= "ARTWORK"@ + " "@);
            let head = "ARTWORK "@ + name_layer_parameter(a.name, a.layer);
            lemma_reads_keyword_line("ARTWORK "@, "ARTWORK"@, name_layer_parameter(a.name, a.layer));
            lemma_reads_more(none, Seq::empty(), head, seq![opener]);
            assert forall|i: int| 0 <= i < a.components.len() implies reads_as(
                artwork_component_line(#[trigger] a.components[i]),
                seq![artwork_component_statement(a.components[i])],
            ) by {
                lemma_whole_artwork_component(a.components[i]);
            }
            lemma_reads_each(
                a.components,
                |c: ArtworkComponentView| artwork_component_line(c),
                |c: ArtworkComponentView| artwork_component_statement(c),
            );
            lemma_reads_more(
                none.push(head),
                s0,
                artwork_components_text(a.components),
                subsection_items(v),
            );
            lemma_reads_attributes(a.attributes);
            lemma_reads_more(
                none.push(head).push(artwork_components_text(a.components)),
                s0 + subsection_items(v),
                attributes_text(a.attributes),
                attributes,
            );
            assert(head =~= "ARTWORK "@ + string_text(a.name) + " "@ + layer_text(a.layer));
            assert(none.push(head).push(artwork_components_text(a.components)).push(
                attributes_text(a.attributes),
            ) =~= seq![
                "ARTWORK "@ + string_text(a.name) + " "@ + layer_text(a.layer),
                artwork_components_text(a.components),
                attributes_text(a.attributes),
            ]);
        },
    }
    assert(s0 + subsection_items(v) + attributes =~= subsection_statements(v));
}

/// The statements of a cutout close the sub-record that is open and leave
/// the cutout open, as it is.
proof fn lemma_cutout_run(p: BoardParserView, c: CutoutView)
    requires
        subsection_ok(SubsectionView::Cutout(c)),
    ensures
        run(
            |s: BoardParserView, kp: KeywordParamView| spec_board_step(s, kp),
            p,
            subsection_statements(SubsectionView::Cutout(c)),
        ) == Ok::<BoardParserView, ParseErrorView>(
            BoardParserView { open: Some(SubsectionView::Cutout(c)), board: spec_board_done(p) },
        ),
{
    let step = |s: BoardParserView, kp: KeywordParamView| spec_board_step(s, kp);
    let v = SubsectionView::Cutout(c);
    let board = spec_board_done(p);
    lemma_whole_opener(v);
    lemma_keyword(Keyword::Attribute);
    let opener = subsection_opener(v);
    let c0 = CutoutView { shapes: Seq::empty(), attributes: Seq::empty(), ..c };
    let st0 = BoardParserView { open: Some(SubsectionView::Cutout(c0)), board };
    lemma_run_one(step, p, opener);
    let a0 = seq![opener];
    assert(run(step, p, a0) == Ok::<BoardParserView, ParseErrorView>(st0));
    let put0 = |s: BoardParserView, list: Seq<OutlineView>|
        BoardParserView { open: Some(SubsectionView::Cutout(CutoutView { shapes: list, ..c0 })), ..s };
    let line0 = |o: OutlineView| outline_statement(o);
    assert forall|list: Seq<OutlineView>, j: int| 0 <= j < c.shapes.len() implies #[trigger] step(
        put0(st0, list),
        line0(c.shapes[j]),
    ) == Ok::<BoardParserView, ParseErrorView>(put0(st0, list.push(c.shapes[j]))) by {
        lemma_whole_outline(c.shapes[j]);
    }
    lemma_run_each(step, put0, st0, Seq::empty(), c.shapes, line0);
    assert(put0(st0, Seq::empty()) == st0);
    assert(Seq::<OutlineView>::empty() + c.shapes =~= c.shapes);
    let items = c.shapes.map_values(line0);
    assert(items =~= subsection_items(v));
    lemma_run_concat(step, p, a0, items);
    let c1 = CutoutView { shapes: c.shapes, ..c0 };
    let st1 = BoardParserView { open: Some(SubsectionView::Cutout(c1)), board };
    assert(put0(st0, c.shapes) == st1);
    let put1 = |s: BoardParserView, list: Seq<AttributeView>|
        BoardParserView { open: Some(SubsectionView::Cutout(CutoutView { attributes: list, ..c1 })), ..s };
    let line1 = |a: AttributeView| attribute_statement(a);
    assert forall|list: Seq<AttributeView>, j: int|
        0 <= j < c.attributes.len() implies #[trigger] step(
        put1(st1, list),
        line1(c.attributes[j]),
    ) == Ok::<BoardParserView, ParseErrorView>(put1(st1, list.push(c.attributes[j]))) by {
        lemma_whole_attribute(c.attributes[j]);
    }
    lemma_run_each(step, put1, st1, Seq::empty(), c.attributes, line1);
    assert(put1(st1, Seq::empty()) == st1);
    assert(Seq::<AttributeView>::empty() + c.attributes =~= c.attributes);
    let attributes = c.attributes.map_values(line1);
    lemma_run_concat(step, p, a0 + items, attributes);
    assert(a0 + items + attributes =~= subsection_statements(v));
    assert(CutoutView { attributes: c.attributes, ..c1 } == c);
}

/// The statements of a mask close the sub-record that is open and leave
/// the mask open, as it is.
proof fn lemma_mask_run(p: BoardParserView, c: MaskView)
    requires
        subsection_ok(SubsectionView::Mask(c)),
    ensures
        run(
            |s: BoardParserView, kp: KeywordParamView| spec_board_step(s, kp),
            p,
            subsection_statements(SubsectionView::Mask(c)),
        ) == Ok::<BoardParserView, ParseErrorView>(
            BoardParserView { open: Some(SubsectionView::Mask(c)), board: spec_board_done(p) },
        ),
{
    let step = |s: BoardParserView, kp: KeywordParamView| spec_board_step(s, kp);
    let v = SubsectionView::Mask(c);
    let board = spec_board_done(p);
    lemma_whole_opener(v);
    lemma_keyword(Keyword::Attribute);
    let opener = subsection_opener(v);
    let c0 = MaskView { shapes: Seq::empty(), attributes: Seq::empty(), ..c };
    let st0 = BoardParserView { open: Some(SubsectionView::Mask(c0)), board };
    lemma_run_one(step, p, opener);
    let a0 = seq![opener];
    assert(run(step, p, a0) == Ok::<BoardParserView, ParseErrorView>(st0));
    let put0 = |s: BoardParserView, list: Seq<OutlineView>|
        BoardParserView { open: Some(SubsectionView::Mask(MaskView { shapes: list, ..c0 })), ..s };
    let line0 = |o: OutlineView| outline_statement(o);
    assert forall|list: Seq<OutlineView>, j: int| 0 <= j < c.shapes.len() implies #[trigger] step(
        put0(st0, list),
        line0(c.shapes[j]),
    ) == Ok::<BoardParserView, ParseErrorView>(put0(st0, list.push(c.shapes[j]))) by {
        lemma_whole_outline(c.shapes[j]);
    }
    lemma_run_each(step, put0, st0, Seq::empty(), c.shapes, line0);
    assert(put0(st0, Seq::empty()) == st0);
    assert(Seq::<OutlineView>::empty() + c.shapes =~= c.shapes);
    let items = c.shapes.map_values(line0);
    assert(items =~= subsection_items(v));
    lemma_run_concat(step, p, a0, items);
    let c1 = MaskView { shapes: c.shapes, ..c0 };
    let st1 = BoardParserView { open: Some(SubsectionView::Mask(c1)), board };
    assert(put0(st0, c.shapes) == st1);
    let put1 = |s: BoardParserView, list: Seq<AttributeView>|
        BoardParserView { open: Some(SubsectionView::Mask(MaskView { attributes: list, ..c1 })), ..s };
    let line1 = |a: AttributeView| attribute_statement(a);
    assert forall|list: Seq<AttributeView>, j: int|
        0 <= j < c.attributes.len() implies #[trigger] step(
        put1(st1, list),
        line1(c.attributes[j]),
    ) == Ok::<BoardParserView, ParseErrorView>(put1(st1, list.push(c.attributes[j]))) by {
        lemma_whole_attribute(c.attributes[j]);
    }
    lemma_run_each(step, put1, st1, Seq::empty(), c.attributes, line1);
    assert(put1(st1, Seq::empty()) == st1);
    assert(Seq::<AttributeView>::empty() + c.attributes =~= c.attributes);
    let attributes = c.attributes.map_values(line1);
    lemma_run_concat(step, p, a0 + items, attributes);
    assert(a0 + items + attributes =~= subsection_statements(v));
    assert(MaskView { attributes: c.attributes, ..c1 } == c);
}

/// The statements of a artwork close the sub-record that is open and leave
/// the artwork open, as it is.
proof fn lemma_artwork_run(p: BoardParserView, c: ArtworkView)
    requires
        subsection_ok(SubsectionView::Artwork(c)),
    ensures
        run(
            |s: BoardParserView, kp: KeywordParamView| spec_board_step(s, kp),
            p,
            subsection_statements(SubsectionView::Artwork(c)),
        ) == Ok::<BoardParserView, ParseErrorView>(
            BoardParserView { open: Some(SubsectionView::Artwork(c)), board: spec_board_done(p) },
        ),
{
    let step = |s: BoardParserView, kp: KeywordParamView| spec_board_step(s, kp);
    let v = SubsectionView::Artwork(c);
    let board = spec_board_done(p);
    lemma_whole_opener(v);
    lemma_keyword(Keyword::Attribute);
    let opener = subsection_opener(v);
    let c0 = ArtworkView { components: Seq::empty(), attributes: Seq::empty(), ..c };
    let st0 = BoardParserView { open: Some(SubsectionView::Artwork(c0)), board };
    lemma_run_one(step, p, opener);
    let a0 = seq![opener];
    assert(run(step, p, a0) == Ok::<BoardParserView, ParseErrorView>(st0));
    let put0 = |s: BoardParserView, list: Seq<ArtworkComponentView>|
        BoardParserView { open: Some(SubsectionView::Artwork(ArtworkView { components: list, ..c0 })), ..s };
    let line0 = |o: ArtworkComponentView| artwork_component_statement(o);
    assert forall|list: Seq<ArtworkComponentView>, j: int| 0 <= j < c.components.len() implies #[trigger] step(
        put0(st0, list),
        line0(c.components[j]),
    ) == Ok::<BoardParserView, ParseErrorView>(put0(st0, list.push(c.components[j]))) by {
        lemma_whole_artwork_component(c.components[j]);
    }
    lemma_run_each(step, put0, st0, Seq::empty(), c.components, line0);
    assert(put0(st0, Seq::empty()) == st0);
    assert(Seq::<ArtworkComponentView>::empty() + c.components =~= c.components);
    let items = c.components.map_values(line0);
    assert(items =~= subsection_items(v));
    lemma_run_concat(step, p, a0, items);
    let c1 = ArtworkView { components: c.components, ..c0 };
    let st1 = BoardParserView { open: Some(SubsectionView::Artwork(c1)), board };
    assert(put0(st0, c.components) == st1);
    let put1 = |s: BoardParserView, list: Seq<AttributeView>|
        BoardParserView { open: Some(SubsectionView::Artwork(ArtworkView { attributes: list, ..c1 })), ..s };
    let line1 = |a: AttributeView| attribute_statement(a);
    assert forall|list: Seq<AttributeView>, j: int|
        0 <= j < c.attributes.len() implies #[trigger] step(
        put1(st1, list),
        line1(c.attributes[j]),
    ) == Ok::<BoardParserView, ParseErrorView>(put1(st1, list.push(c.attributes[j]))) by {
        lemma_whole_attribute(c.attributes[j]);
    }
    lemma_run_each(step, put1, st1, Seq::empty(), c.attributes, line1);
    assert(put1(st1, Seq::empty()) == st1);
    assert(Seq::<AttributeView>::empty() + c.attributes =~= c.attributes);
    let attributes = c.attributes.map_values(line1);
    lemma_run_concat(step, p, a0 + items, attributes);
    assert(a0 + items + attributes =~= subsection_statements(v));
    assert(ArtworkView { attributes: c.attributes, ..c1 } == c);
}

/// The statements of a sub-record close the sub-record that is open and
/// leave the sub-record open, as it is.
proof fn lemma_subsection_run(p: BoardParserView, v: SubsectionView)
    requires
        subsection_ok(v),
    ensures
        run(|s: BoardParserView, kp: KeywordParamView| spec_board_step(s, kp), p, subsection_statements(v))
            == Ok::<BoardParserView, ParseErrorView>(BoardParserView { open: Some(v), board: spec_board_done(p) }),
{
    match v {
        SubsectionView::Cutout(c) => lemma_cutout_run(p, c),
        SubsectionView::Mask(m) => lemma_mask_run(p, m),
        SubsectionView::Artwork(a) => lemma_artwork_run(p, a),
    }
}

/// The statements of the sub-records `v`, one sub-record behind the other.
pub open spec fn subsections_statements(v: Seq<SubsectionView>) -> Seq<KeywordParamView> {
    concat_all(v.map_values(|s: SubsectionView| subsection_statements(s)))
}

/// The state of the builder behind the statements of the sub-records `v`,
/// from a state in which none is open.
pub open spec fn subsections_state(p: BoardParserView, v: Seq<SubsectionView>) -> BoardParserView {
    if v.len() == 0 {
        p
    } else {
        BoardParserView {
            open: Some(v.last()),
            board: BoardView { subsections: p.board.subsections + v.drop_last(), ..p.board },
        }
    }
}

/// The statements of sub-records, one behind the other, are read as the
/// sub-records.
proof fn lemma_subsections_run(p: BoardParserView, v: Seq<SubsectionView>)
    requires
        p.open is None,
        forall|i: int| 0 <= i < v.len() ==> subsection_ok(#[trigger] v[i]),
    ensures
        run(
            |s: BoardParserView, kp: KeywordParamView| spec_board_step(s, kp),
            p,
            subsections_statements(v),
        ) == Ok::<BoardParserView, ParseErrorView>(subsections_state(p, v)),
        spec_board_done(subsections_state(p, v)) == (BoardView {
            subsections: p.board.subsections + v,
            ..p.board
        }),
    decreases v.len(),
{
    let step = |s: BoardParserView, kp: KeywordParamView| spec_board_step(s, kp);
    let lists = v.map_values(|s: SubsectionView| subsection_statements(s));
    if v.len() == 0 {
        assert(concat_all(lists) =~= Seq::<KeywordParamView>::empty());
        assert(p.board.subsections + v =~= p.board.subsections);
    } else {
        let first = v.drop_last();
        assert forall|i: int| 0 <= i < first.len() implies subsection_ok(#[trigger] first[i]) by {
            assert(first[i] == v[i]);
        }
        lemma_subsections_run(p, first);
        assert(lists.drop_last() =~= first.map_values(|s: SubsectionView| subsection_statements(s)));
        assert(lists.last() == subsection_statements(v.last()));
        assert(subsection_ok(v[v.len() - 1]));
        let before = subsections_state(p, first);
        lemma_subsection_run(before, v.last());
        lemma_run_concat(step, p, concat_all(lists.drop_last()), subsection_statements(v.last()));
        assert(p.board.subsections + first =~= p.board.subsections + v.drop_last());
        assert((p.board.subsections + v.drop_last()).push(v.last()) =~= p.board.subsections + v);
    }
}

/// The statements of the board itself: its thickness, its outline and its
/// attributes.
pub open spec fn board_own_statements(v: BoardView) -> Seq<KeywordParamView> {
    opt_statement("THICKNESS"@, v.thickness) + v.outline_shapes.map_values(
        |o: OutlineView| outline_statement(o),
    ) + v.attributes.map_values(|a: AttributeView| attribute_statement(a))
}

/// The statements of a board, in the order of its lines.
pub open spec fn board_statements(v: BoardView) -> Seq<KeywordParamView> {
    board_own_statements(v) + subsections_statements(v.subsections)
}

/// The lines of the body of the `BOARD` section.
pub open spec fn board_lines(v: BoardView) -> Seq<Seq<char>> {
    thickness_lines(v.thickness) + seq![
        outlines_text(v.outline_shapes),
        attributes_text(v.attributes),
        subsections_text(v.subsections),
    ]
}

/// The statements of the board itself give the board its thickness, its
/// outline and its attributes, and open no sub-record.
proof fn lemma_board_own_run(v: BoardView)
    requires
        board_ok(v),
    ensures
        run(
            |s: BoardParserView, kp: KeywordParamView| spec_board_step(s, kp),
            spec_board_init(),
            board_own_statements(v),
        ) == Ok::<BoardParserView, ParseErrorView>(
            BoardParserView { open: None, board: BoardView { subsections: Seq::empty(), ..v } },
        ),
{
    let step = |s: BoardParserView, kp: KeywordParamView| spec_board_step(s, kp);
    let init = spec_board_init();
    lemma_keyword(Keyword::Thickness);
    lemma_keyword(Keyword::Attribute);
    let b1 = BoardView { thickness: v.thickness, ..init.board };
    let st1 = BoardParserView { open: None, board: b1 };
    if let Some(t) = v.thickness {
        lemma_whole_number(t);
        let kp = KeywordParamView { keyword: "THICKNESS"@, parameter: t };
        assert(spec_outline(kp) is None);
        assert(spec_artwork_only(kp) is None);
        assert(spec_subsection_new(kp) is None);
    }
    lemma_run_opt(step, init, "THICKNESS"@, v.thickness, st1);
    let a0 = opt_statement("THICKNESS"@, v.thickness);
    let put0 = |s: BoardParserView, list: Seq<OutlineView>|
        BoardParserView { board: BoardView { outline_shapes: list, ..s.board }, ..s };
    let line0 = |o: OutlineView| outline_statement(o);
    assert forall|list: Seq<OutlineView>, j: int|
        0 <= j < v.outline_shapes.len() implies #[trigger] step(
        put0(st1, list),
        line0(v.outline_shapes[j]),
    ) == Ok::<BoardParserView, ParseErrorView>(put0(st1, list.push(v.outline_shapes[j]))) by {
        lemma_whole_outline(v.outline_shapes[j]);
    }
    lemma_run_each(step, put0, st1, Seq::empty(), v.outline_shapes, line0);
    assert(put0(st1, Seq::empty()) == st1);
    assert(Seq::<OutlineView>::empty() + v.outline_shapes =~= v.outline_shapes);
    let o = v.outline_shapes.map_values(line0);
    lemma_run_concat(step, init, a0, o);
    let st2 = put0(st1, v.outline_shapes);
    let put1 = |s: BoardParserView, list: Seq<AttributeView>|
        BoardParserView { board: BoardView { attributes: list, ..s.board }, ..s };
    let line1 = |a: AttributeView| attribute_statement(a);
    assert forall|list: Seq<AttributeView>, j: int|
        0 <= j < v.attributes.len() implies #[trigger] step(
        put1(st2, list),
        line1(v.attributes[j]),
    ) == Ok::<BoardParserView, ParseErrorView>(put1(st2, list.push(v.attributes[j]))) by {
        lemma_whole_attribute(v.attributes[j]);
    }
    lemma_run_each(step, put1, st2, Seq::empty(), v.attributes, line1);
    assert(put1(st2, Seq::empty()) == st2);
    assert(Seq::<AttributeView>::empty() + v.attributes =~= v.attributes);
    let a = v.attributes.map_values(line1);
    lemma_run_concat(step, init, a0 + o, a);
    assert(a0 + o + a =~= board_own_statements(v));
    assert(put1(st2, v.attributes) == (BoardParserView {
        open: None,
        board: BoardView { subsections: Seq::empty(), ..v },
    }));
}

/// A board is read back from its statements.
proof fn lemma_board_run(v: BoardView)
    requires
        board_ok(v),
    ensures
        spec_parse_board(board_statements(v)) == Ok::<BoardView, ParseErrorView>(v),
{
    let step = |s: BoardParserView, kp: KeywordParamView| spec_board_step(s, kp);
    let p = BoardParserView { open: None, board: BoardView { subsections: Seq::empty(), ..v } };
    lemma_board_own_run(v);
    lemma_subsections_run(p, v.subsections);
    lemma_run_concat(
        step,
        spec_board_init(),
        board_own_statements(v),
        subsections_statements(v.subsections),
    );
    assert(Seq::<SubsectionView>::empty() + v.subsections =~= v.subsections);
}

/// The lines of the body of the `BOARD` section are read as the statements
/// of the board.
proof fn lemma_board_reads(v: BoardView)
    requires
        board_ok(v),
    ensures
        reads_as(join_lines(board_lines(v)), board_statements(v)),
        board_lines(v).len() > 0,
{
    reveal_strlit(" ");
    reveal_strlit("THICKNESS ");
    reveal_strlit("THICKNESS");
    assert("THICKNESS "@ =~= "THICKNESS"@ + " "@);
    lemma_keyword(Keyword::Thickness);
    lemma_reads_empty();
    let none = Seq::<Seq<char>>::empty();
    assert(join_lines(none) =~= Seq::<char>::empty());
    if let Some(t) = v.thickness {
        lemma_whole_number(t);
    }
    lemma_reads_opt(none, Seq::empty(), "THICKNESS "@, "THICKNESS"@, v.thickness);
    let t0 = none + opt_line("THICKNESS "@, v.thickness);
    assert(t0 =~= thickness_lines(v.thickness));
    let s0 = Seq::<KeywordParamView>::empty() + opt_statement("THICKNESS"@, v.thickness);
    lemma_reads_outlines(v.outline_shapes);
    let o = v.outline_shapes.map_values(|o: OutlineView| outline_statement(o));
    lemma_reads_more(t0, s0, outlines_text(v.outline_shapes), o);
    lemma_reads_attributes(v.attributes);
    let a = v.attributes.map_values(|a: AttributeView| attribute_statement(a));
    lemma_reads_more(
        t0.push(outlines_text(v.outline_shapes)),
        s0 + o,
        attributes_text(v.attributes),
        a,
    );
    let texts = v.subsections.map_values(|s: SubsectionView| subsection_text(s));
    let lists = v.subsections.map_values(|s: SubsectionView| subsection_statements(s));
    assert forall|i: int| 0 <= i < texts.len() implies reads_as(#[trigger] texts[i], lists[i]) by {
        assert(subsection_ok(v.subsections[i]));
        lemma_subsection_reads(v.subsections[i]);
    }
    lemma_reads_join_lines(texts, lists);
    lemma_reads_more(
        t0.push(outlines_text(v.outline_shapes)).push(attributes_text(v.attributes)),
        s0 + o + a,
        subsections_text(v.subsections),
        subsections_statements(v.subsections),
    );
    assert(t0.push(outlines_text(v.outline_shapes)).push(attributes_text(v.attributes)).push(
        subsections_text(v.subsections),
    ) =~= board_lines(v));
    assert(s0 + o + a + subsections_statements(v.subsections) =~= board_statements(v));
}

/// The `BOARD` section is read back from its text: the text of a board
/// that can be written is split into the statements of a section named
/// `BOARD`, and the builder makes the board of them.
pub proof fn lemma_board_round_trip(v: BoardView)
    requires
        board_ok(v),
    ensures
        section_round_trips(board_text(v), ParsedSectionView::Board(v)),
{
    reveal(spec_build_section);
    lemma_section_board();
    lemma_board_reads(v);
    lemma_board_run(v);
    let body = join_lines(board_lines(v));
    lemma_section_written("BOARD"@, body, board_statements(v));
    lemma_join_wrapped("$BOARD"@, board_lines(v), "$ENDBOARD"@);
    assert(seq!["$BOARD"@] + thickness_lines(v.thickness) + seq![
        outlines_text(v.outline_shapes),
        attributes_text(v.attributes),
        subsections_text(v.subsections),
        "$ENDBOARD"@,
    ] =~= seq!["$BOARD"@] + board_lines(v) + seq!["$ENDBOARD"@]);
    assert(board_text(v) =~= section_text("BOARD"@, body));
    let section = SectionView { name: "BOARD"@, parameters: board_statements(v) };
    assert(spec_build_section(section) == Ok::<ParsedSectionView, ParseErrorView>(
        ParsedSectionView::Board(v),
    ));
}

} // verus!
