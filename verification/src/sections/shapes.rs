//! The `SHAPES` section.
//!
//! A shape holds the elements of its outline, an insertion style, a height,
//! attributes, and sub-records: artworks, fiducials and pins. An `INSERT`
//! line before the first shape sets the insertion style that the shapes to
//! come start with; an `INSERT` line inside a shape is the shape's own, and
//! counts only where the shape has no insertion style yet.

use vstd::prelude::*;
use vstd::string::*;
use crate::error::{agrees_whole, ParseError, ParseErrorView, SectionKind, Token};
use crate::lex::{lemma_one_line_concat, one_line, str_eq};
use crate::parser::{KeywordParam, KeywordParamView, SectionView};
use crate::parser::file::{
    lemma_section_shapes, ParsedSectionView, section_round_trips, spec_build_section,
};
use crate::parser::keyword::{Keyword, lemma_keyword};
use crate::parser::written::{
    concat_all, lemma_empty_section_written, lemma_reads_concat, lemma_reads_each,
    lemma_reads_empty, lemma_reads_join_lines, lemma_reads_keyword_line, lemma_reads_more,
    lemma_reads_opt, lemma_section_written, opt_statement, reads_as, section_text,
};
use crate::sections::{
    attribute_statement, attributes_ok, first_wins, lemma_reads_attributes, lemma_run_concat,
    lemma_run_each, lemma_run_error, lemma_run_one, lemma_run_opt, lemma_run_push, lemma_run_step,
    lemma_whole_attribute, lemma_whole_number, lemma_whole_string, lemma_whole_x_y, run,
    unexpected, whole,
};
use crate::sections::pads::{
    lemma_outline_keyword, lemma_whole_outline, outline_line, outline_ok, outline_statement,
    OutlineView, spec_outline,
};
use crate::serialization::{
    concat, crlf, extend_lines, join, join_lines, lemma_join_wrapped, opt_line, push_line,
    push_opt_line, render_all, render_opt, ToGencadString,
};
use crate::types::aliases::{artwork_name, fid_name, height, pin_name, shape_name};
use crate::types::arc_ref::{arc_ref, ArcRef};
use crate::types::attrib_ref::{
    attrib_ref, Attribute, attributes_text, AttributeView, lemma_sp_string_round_trip, sp_string,
    spec_attrib_ref, spec_sp_string,
};
use crate::types::circle_ref::{circle_ref, CircleRef};
use crate::types::layer::{Layer, layer_text, lemma_layer_text_one_line};
use crate::types::line_ref::{line_ref, LineRef};
use crate::types::mirror::{lemma_mirror_text_one_line, Mirror, mirror_text};
use crate::types::number::{is_number, lemma_number_one_line, Number, spec_number};
use crate::types::rectangle_ref::{rectangle_ref, RectangleRef};
use crate::types::string::{
    is_plain, is_writable, lemma_string_one_line, lemma_string_round_trip, spec_string, string,
    string_text,
};
use crate::types::text_par::{
    lemma_sp_layer_round_trip, lemma_sp_mirror_round_trip, sp_layer, sp_mirror, spec_sp_layer,
    spec_sp_mirror,
};
use crate::types::x_y_ref::{
    lemma_sp_number_round_trip, lemma_sp_x_y_round_trip, lemma_x_y_one_line, sp_number, sp_x_y_ref,
    spec_sp_number, spec_sp_x_y_ref, spec_x_y_ref, x_y_ok, x_y_ref, x_y_text, XYRef, XYRefView,
};

verus! {

/// Geometric elements that define the outline of a component shape.
#[derive(Debug, Clone, PartialEq, Eq)]
pub enum ShapeElement {
    /// A straight line forming part of the shape.
    Line(LineRef),
    /// A circular or elliptical arc forming part of the shape.
    Arc(ArcRef),
    /// A full circle forming part of the shape.
    Circle(CircleRef),
    /// A rectangle forming part of the shape.
    Rectangle(RectangleRef),
    /// A fiducial point defined by its coordinates relative to the shape origin.
    Fiducial(XYRef),
}

/// The mathematical content of a [`ShapeElement`].
pub ghost enum ShapeElementView {
    Outline(OutlineView),
    Fiducial(XYRefView),
}

impl DeepView for ShapeElement {
    type V = ShapeElementView;

    open spec fn deep_view(&self) -> ShapeElementView {
        match self {
            ShapeElement::Line(v) => ShapeElementView::Outline(OutlineView::Line(v.deep_view())),
            ShapeElement::Arc(v) => ShapeElementView::Outline(OutlineView::Arc(v.deep_view())),
            ShapeElement::Circle(v) => ShapeElementView::Outline(
                OutlineView::Circle(v.deep_view()),
            ),
            ShapeElement::Rectangle(v) => ShapeElementView::Outline(
                OutlineView::Rectangle(v.deep_view()),
            ),
            ShapeElement::Fiducial(v) => ShapeElementView::Fiducial(v.deep_view()),
        }
    }
}

/// Optional package style for component insertion.
#[derive(Debug, Clone, Copy, PartialEq, Eq, Structural)]
pub enum Insert {
    /// Through-hole package.
    Th,
    /// Axial leaded package.
    Axial,
    /// Radial leaded package.
    Radial,
    /// Dual in-line package.
    Dip,
    /// Single in-line package.
    Sip,
    /// Zig-zag in-line package.
    Zip,
    /// Through-hole connector package.
    Conn,
    /// Surface-mount device package.
    Smd,
    /// Package styles other than through-hole or surface-mount.
    Other,
}

impl DeepView for Insert {
    type V = Insert;

    open spec fn deep_view(&self) -> Insert {
        *self
    }
}

/// An artwork feature placed relative to the shape origin.
#[derive(Debug, Clone, PartialEq, Eq)]
pub struct Artwork {
    /// The name of the artwork as defined in the `ARTWORKS` section.
    pub name: String,
    /// The position of the artwork's origin relative to the shape origin.
    pub xy: XYRef,
    /// The rotation of the artwork around its origin, in degrees counterclockwise.
    pub rotation: Number,
    /// The mirror state of the artwork (applied before rotation).
    pub mirror: Mirror,
    /// Additional metadata associated with the artwork.
    pub attributes: Vec<Attribute>,
}

/// The mathematical content of an [`Artwork`] of a shape.
pub ghost struct ArtworkView {
    pub name: Seq<char>,
    pub xy: XYRefView,
    pub rotation: Seq<char>,
    pub mirror: Mirror,
    pub attributes: Seq<AttributeView>,
}

impl DeepView for Artwork {
    type V = ArtworkView;

    open spec fn deep_view(&self) -> ArtworkView {
        ArtworkView {
            name: self.name@,
            xy: self.xy.deep_view(),
            rotation: self.rotation.deep_view(),
            mirror: self.mirror,
            attributes: self.attributes.deep_view(),
        }
    }
}

/// A fiducial marker using a pad or padstack, defined relative to the shape origin.
#[derive(Debug, Clone, PartialEq, Eq)]
pub struct Fid {
    /// The name of the fiducial (must be unique within the shape).
    pub name: String,
    /// The name of the pad or padstack used for the fiducial.
    pub pad_name: String,
    /// The position of the fiducial's center relative to the shape origin.
    pub xy: XYRef,
    /// The layer on which the fiducial is placed, relative to the shape's layer.
    pub layer: Layer,
    /// The rotation of the fiducial around its origin, in degrees counterclockwise.
    pub rotation: Number,
    /// The mirror state of the fiducial (applied before rotation).
    pub mirror: Mirror,
    /// Additional metadata associated with the fiducial.
    pub attributes: Vec<Attribute>,
}

/// The mathematical content of a [`Fid`] and of a [`Pin`]: a pad or padstack
/// placed in a shape.
pub ghost struct PlacedPadView {
    pub name: Seq<char>,
    pub pad_name: Seq<char>,
    pub xy: XYRefView,
    pub layer: Layer,
    pub rotation: Seq<char>,
    pub mirror: Mirror,
    pub attributes: Seq<AttributeView>,
}

impl DeepView for Fid {
    type V = PlacedPadView;

    open spec fn deep_view(&self) -> PlacedPadView {
        PlacedPadView {
            name: self.name@,
            pad_name: self.pad_name@,
            xy: self.xy.deep_view(),
            layer: self.layer,
            rotation: self.rotation.deep_view(),
            mirror: self.mirror,
            attributes: self.attributes.deep_view(),
        }
    }
}

/// A pin defined using a pad or padstack, placed relative to the shape origin.
#[derive(Debug, Clone, PartialEq, Eq)]
pub struct Pin {
    /// The name of the pin (must match device pin names).
    pub name: String,
    /// The name of the pad or padstack used for the pin.
    pub pad_name: String,
    /// The position of the pin's center relative to the shape origin.
    pub xy: XYRef,
    /// The layer on which the pin is placed, relative to the shape's layer.
    pub layer: Layer,
    /// The rotation of the pin around its origin, in degrees counterclockwise.
    pub rotation: Number,
    /// The mirror state of the pin (applied before rotation).
    pub mirror: Mirror,
    /// Additional metadata associated with the pin.
    pub attributes: Vec<Attribute>,
}

impl DeepView for Pin {
    type V = PlacedPadView;

    open spec fn deep_view(&self) -> PlacedPadView {
        PlacedPadView {
            name: self.name@,
            pad_name: self.pad_name@,
            xy: self.xy.deep_view(),
            layer: self.layer,
            rotation: self.rotation.deep_view(),
            mirror: self.mirror,
            attributes: self.attributes.deep_view(),
        }
    }
}

/// A subcomponent (artwork, fiducial, or pin) associated with a shape.
#[derive(Debug, Clone, PartialEq, Eq)]
pub enum SubShape {
    /// An artwork feature defined in the `ARTWORKS` section.
    Artwork(Artwork),
    /// A fiducial marker using a pad or padstack.
    Fid(Fid),
    /// A pin defined using a pad or padstack.
    Pin(Pin),
}

/// The mathematical content of a [`SubShape`].
pub ghost enum SubShapeView {
    Artwork(ArtworkView),
    Fid(PlacedPadView),
    Pin(PlacedPadView),
}

impl DeepView for SubShape {
    type V = SubShapeView;

    open spec fn deep_view(&self) -> SubShapeView {
        match self {
            SubShape::Artwork(v) => SubShapeView::Artwork(v.deep_view()),
            SubShape::Fid(v) => SubShapeView::Fid(v.deep_view()),
            SubShape::Pin(v) => SubShapeView::Pin(v.deep_view()),
        }
    }
}

/// A reusable component outline defined in the `SHAPES` section.
#[derive(Debug, Clone, PartialEq, Eq)]
pub struct Shape {
    /// The unique name of the shape.
    pub name: String,
    /// Geometric elements defining the shape's outline.
    pub elements: Vec<ShapeElement>,
    /// Optional package style for component insertion.
    pub insert: Option<Insert>,
    /// The maximum height of the component from the board's surface.
    pub height: Option<Number>,
    /// Subcomponents (artwork, fiducials, or pins) associated with the shape.
    pub subshapes: Vec<SubShape>,
    /// Additional metadata associated with the shape.
    pub attributes: Vec<Attribute>,
}

/// The mathematical content of a [`Shape`].
pub ghost struct ShapeView {
    pub name: Seq<char>,
    pub elements: Seq<ShapeElementView>,
    pub insert: Option<Insert>,
    pub height: Option<Seq<char>>,
    pub subshapes: Seq<SubShapeView>,
    pub attributes: Seq<AttributeView>,
}

impl DeepView for Shape {
    type V = ShapeView;

    open spec fn deep_view(&self) -> ShapeView {
        ShapeView {
            name: self.name@,
            elements: self.elements.deep_view(),
            insert: self.insert,
            height: self.height.deep_view(),
            subshapes: self.subshapes.deep_view(),
            attributes: self.attributes.deep_view(),
        }
    }
}

/// The insertion style that `s` names.
pub open spec fn spec_insert(s: Seq<char>) -> Result<Insert, ParseErrorView> {
    if s == "TH"@ {
        Ok(Insert::Th)
    } else if s == "AXIAL"@ {
        Ok(Insert::Axial)
    } else if s == "RADIAL"@ {
        Ok(Insert::Radial)
    } else if s == "DIP"@ {
        Ok(Insert::Dip)
    } else if s == "SIP"@ {
        Ok(Insert::Sip)
    } else if s == "ZIP"@ {
        Ok(Insert::Zip)
    } else if s == "CONN"@ {
        Ok(Insert::Conn)
    } else if s == "SMD"@ {
        Ok(Insert::Smd)
    } else if s == "OTHER"@ {
        Ok(Insert::Other)
    } else {
        Err(ParseErrorView::Grammar { expected: Token::Insert, rest: s })
    }
}

/// The name of an insertion style.
pub open spec fn insert_name(i: Insert) -> Seq<char> {
    match i {
        Insert::Th => "TH"@,
        Insert::Axial => "AXIAL"@,
        Insert::Radial => "RADIAL"@,
        Insert::Dip => "DIP"@,
        Insert::Sip => "SIP"@,
        Insert::Zip => "ZIP"@,
        Insert::Conn => "CONN"@,
        Insert::Smd => "SMD"@,
        Insert::Other => "OTHER"@,
    }
}

/// The insertion style that the parameter of an `INSERT` line names.
pub open spec fn spec_insert_line(params: Seq<char>) -> Result<Insert, ParseErrorView> {
    match spec_string(params) {
        Err(e) => Err(e),
        Ok((_, name)) => spec_insert(name),
    }
}

/// The element that a line with one of the keywords `LINE`, `ARC`, `CIRCLE`,
/// `RECTANGLE` and `FIDUCIAL` describes; `None` for any other keyword.
pub open spec fn spec_shape_element(kp: KeywordParamView) -> Option<
    Result<ShapeElementView, ParseErrorView>,
> {
    match spec_outline(kp) {
        Some(Ok(o)) => Some(Ok(ShapeElementView::Outline(o))),
        Some(Err(e)) => Some(Err(e)),
        None => match Keyword::spec_of(kp.keyword) {
            Keyword::Fiducial => Some(
                match spec_x_y_ref(kp.parameter) {
                    Ok((_, v)) => Ok(ShapeElementView::Fiducial(v)),
                    Err(e) => Err(e),
                },
            ),
            _ => None,
        },
    }
}

/// The artwork that an `ARTWORK` line of a shape describes.
#[verifier::opaque]
pub open spec fn spec_shape_artwork(params: Seq<char>) -> Result<ArtworkView, ParseErrorView> {
    match spec_string(params) {
        Err(e) => Err(e),
        Ok((s1, name)) => match spec_sp_x_y_ref(s1) {
            Err(e) => Err(e),
            Ok((s2, xy)) => match spec_sp_number(s2) {
                Err(e) => Err(e),
                Ok((s3, rotation)) => match spec_sp_mirror(s3) {
                    Err(e) => Err(e),
                    Ok((_, mirror)) => Ok(
                        ArtworkView { name, xy, rotation, mirror, attributes: Seq::empty() },
                    ),
                },
            },
        },
    }
}

/// The placed pad that a `FID` or `PIN` line of a shape describes.
#[verifier::opaque]
pub open spec fn spec_placed_pad(params: Seq<char>) -> Result<PlacedPadView, ParseErrorView> {
    match spec_string(params) {
        Err(e) => Err(e),
        Ok((s1, name)) => match spec_sp_string(s1) {
            Err(e) => Err(e),
            Ok((s2, pad_name)) => match spec_sp_x_y_ref(s2) {
                Err(e) => Err(e),
                Ok((s3, xy)) => match spec_sp_layer(s3) {
                    Err(e) => Err(e),
                    Ok((s4, layer)) => match spec_sp_number(s4) {
                        Err(e) => Err(e),
                        Ok((s5, rotation)) => match spec_sp_mirror(s5) {
                            Err(e) => Err(e),
                            Ok((_, mirror)) => Ok(
                                PlacedPadView {
                                    name,
                                    pad_name,
                                    xy,
                                    layer,
                                    rotation,
                                    mirror,
                                    attributes: Seq::empty(),
                                },
                            ),
                        },
                    },
                },
            },
        },
    }
}

/// The sub-record that a line with one of the keywords `ARTWORK`, `FID` and
/// `PIN` opens; `None` for any other keyword.
pub open spec fn spec_subshape_new(kp: KeywordParamView) -> Option<
    Result<SubShapeView, ParseErrorView>,
> {
    match Keyword::spec_of(kp.keyword) {
        Keyword::Artwork => Some(
            match spec_shape_artwork(kp.parameter) {
                Ok(v) => Ok(SubShapeView::Artwork(v)),
                Err(e) => Err(e),
            },
        ),
        Keyword::Fid => Some(
            match spec_placed_pad(kp.parameter) {
                Ok(v) => Ok(SubShapeView::Fid(v)),
                Err(e) => Err(e),
            },
        ),
        Keyword::Pin => Some(
            match spec_placed_pad(kp.parameter) {
                Ok(v) => Ok(SubShapeView::Pin(v)),
                Err(e) => Err(e),
            },
        ),
        _ => None,
    }
}

/// The sub-record `sub` with the attribute `a` added.
pub open spec fn spec_subshape_with(sub: SubShapeView, a: AttributeView) -> SubShapeView {
    match sub {
        SubShapeView::Artwork(v) => SubShapeView::Artwork(
            ArtworkView { attributes: v.attributes.push(a), ..v },
        ),
        SubShapeView::Fid(v) => SubShapeView::Fid(
            PlacedPadView { attributes: v.attributes.push(a), ..v },
        ),
        SubShapeView::Pin(v) => SubShapeView::Pin(
            PlacedPadView { attributes: v.attributes.push(a), ..v },
        ),
    }
}

/// The shape that a `SHAPE` line opens, with the insertion style `insert`
/// that the section has set for the shapes to come.
pub open spec fn spec_shape_new(params: Seq<char>, insert: Option<Insert>) -> Result<
    ShapeView,
    ParseErrorView,
> {
    match spec_string(params) {
        Err(e) => Err(e),
        Ok((_, name)) => Ok(
            ShapeView {
                name,
                elements: Seq::empty(),
                insert,
                height: None,
                subshapes: Seq::empty(),
                attributes: Seq::empty(),
            },
        ),
    }
}

/// The state of the builder of one shape: the shape, and its sub-record
/// that is open.
pub ghost struct ShapeParserView {
    pub open: Option<SubShapeView>,
    pub shape: ShapeView,
}

/// The shape of `p` with the open sub-record closed.
pub open spec fn spec_shape_done(p: ShapeParserView) -> ShapeView {
    match p.open {
        Some(sub) => ShapeView { subshapes: p.shape.subshapes.push(sub), ..p.shape },
        None => p.shape,
    }
}

/// The builder `p` of a shape after the line `kp`. An attribute goes to the
/// open sub-record, or to the shape where none is open. A line that opens a
/// sub-record closes the open one. A line for the shape itself closes the
/// open sub-record as well, and is then applied to the shape.
pub open spec fn spec_shape_step(p: ShapeParserView, kp: KeywordParamView) -> Result<
    ShapeParserView,
    ParseErrorView,
> {
    let closed = spec_shape_done(p);
    if Keyword::spec_of(kp.keyword) == Keyword::Attribute {
        match whole(spec_attrib_ref(kp.parameter)) {
            Err(e) => Err(e),
            Ok(a) => match p.open {
                Some(sub) => Ok(ShapeParserView { open: Some(spec_subshape_with(sub, a)), ..p }),
                None => Ok(
                    ShapeParserView {
                        shape: ShapeView { attributes: p.shape.attributes.push(a), ..p.shape },
                        ..p
                    },
                ),
            },
        }
    } else if let Some(sub) = spec_subshape_new(kp) {
        match sub {
            Err(e) => Err(e),
            Ok(sub) => Ok(ShapeParserView { open: Some(sub), shape: closed }),
        }
    } else if let Some(element) = spec_shape_element(kp) {
        match element {
            Err(e) => Err(e),
            Ok(element) => Ok(
                ShapeParserView {
                    open: None,
                    shape: ShapeView { elements: closed.elements.push(element), ..closed },
                },
            ),
        }
    } else if Keyword::spec_of(kp.keyword) == Keyword::Insert {
        match first_wins(closed.insert, spec_insert_line(kp.parameter)) {
            Err(e) => Err(e),
            Ok(insert) => Ok(ShapeParserView { open: None, shape: ShapeView { insert, ..closed } }),
        }
    } else if Keyword::spec_of(kp.keyword) == Keyword::Height {
        match first_wins(closed.height, whole(spec_number(kp.parameter))) {
            Err(e) => Err(e),
            Ok(height) => Ok(ShapeParserView { open: None, shape: ShapeView { height, ..closed } }),
        }
    } else {
        Err(
            ParseErrorView::UnexpectedKeyword {
                section: SectionKind::Shapes,
                keyword: kp.keyword,
            },
        )
    }
}

/// The state of the builder of the section: the shapes that are complete,
/// the builder of the shape that is open, and the insertion style for the
/// shapes to come.
pub ghost struct ShapesParserView {
    pub shapes: Seq<ShapeView>,
    pub open: Option<ShapeParserView>,
    pub insert: Option<Insert>,
}

/// The builder before the first line.
pub open spec fn spec_shapes_init() -> ShapesParserView {
    ShapesParserView { shapes: Seq::empty(), open: None, insert: None }
}

/// The shapes of `state` with the open one closed.
pub open spec fn spec_shapes_flushed(state: ShapesParserView) -> Seq<ShapeView> {
    match state.open {
        Some(p) => state.shapes.push(spec_shape_done(p)),
        None => state.shapes,
    }
}

/// The state of the builder after the line `kp`. `SHAPE` closes the open
/// shape and opens the next. Any other line goes to the open shape. Where
/// none is open, `INSERT` sets the insertion style for the shapes to come.
pub open spec fn spec_shapes_step(state: ShapesParserView, kp: KeywordParamView) -> Result<
    ShapesParserView,
    ParseErrorView,
> {
    if Keyword::spec_of(kp.keyword) == Keyword::Shape {
        match spec_shape_new(kp.parameter, state.insert) {
            Err(e) => Err(e),
            Ok(shape) => Ok(
                ShapesParserView {
                    shapes: spec_shapes_flushed(state),
                    open: Some(ShapeParserView { open: None, shape }),
                    ..state
                },
            ),
        }
    } else {
        match state.open {
            Some(p) => match spec_shape_step(p, kp) {
                Err(e) => Err(e),
                Ok(p) => Ok(ShapesParserView { open: Some(p), ..state }),
            },
            None => if Keyword::spec_of(kp.keyword) == Keyword::Insert {
                match spec_insert_line(kp.parameter) {
                    Err(e) => Err(e),
                    Ok(insert) => Ok(ShapesParserView { insert: Some(insert), ..state }),
                }
            } else {
                Err(
                    ParseErrorView::UnexpectedKeyword {
                        section: SectionKind::Shapes,
                        keyword: kp.keyword,
                    },
                )
            },
        }
    }
}

/// The shapes that the lines of a `SHAPES` section describe.
pub open spec fn spec_parse_shapes(lines: Seq<KeywordParamView>) -> Result<
    Seq<ShapeView>,
    ParseErrorView,
> {
    match run(
        |s: ShapesParserView, kp: KeywordParamView| spec_shapes_step(s, kp),
        spec_shapes_init(),
        lines,
    ) {
        Ok(state) => Ok(spec_shapes_flushed(state)),
        Err(e) => Err(e),
    }
}

impl Insert {
    /// The insertion style that `s` names.
    pub fn new(s: &str) -> (r: Result<Insert, ParseError>)
        ensures
            agrees_whole(r, spec_insert(s@)),
    {
        if str_eq(s, "TH") {
            Ok(Insert::Th)
        } else if str_eq(s, "AXIAL") {
            Ok(Insert::Axial)
        } else if str_eq(s, "RADIAL") {
            Ok(Insert::Radial)
        } else if str_eq(s, "DIP") {
            Ok(Insert::Dip)
        } else if str_eq(s, "SIP") {
            Ok(Insert::Sip)
        } else if str_eq(s, "ZIP") {
            Ok(Insert::Zip)
        } else if str_eq(s, "CONN") {
            Ok(Insert::Conn)
        } else if str_eq(s, "SMD") {
            Ok(Insert::Smd)
        } else if str_eq(s, "OTHER") {
            Ok(Insert::Other)
        } else {
            Err(ParseError::expected(Token::Insert, s))
        }
    }

    /// Decodes the parameter of an `INSERT` line.
    pub fn from_parameters(params: &str) -> (r: Result<Insert, ParseError>)
        ensures
            agrees_whole(r, spec_insert_line(params@)),
    {
        let (_, name) = string(params)?;
        Insert::new(name.as_str())
    }
}

impl ShapeElement {
    /// Decodes a line that describes an element; `None` for a line with
    /// another keyword.
    pub fn from_line(kp: &KeywordParam) -> (r: Option<Result<ShapeElement, ParseError>>)
        ensures
            match r {
                Some(element) => spec_shape_element(kp.deep_view()) matches Some(m)
                    && agrees_whole(element, m),
                None => spec_shape_element(kp.deep_view()) is None,
            },
    {
        match Keyword::of(kp.keyword) {
            Keyword::Line => Some(
                match line_ref(kp.parameter) {
                    Ok((_, v)) => Ok(ShapeElement::Line(v)),
                    Err(e) => Err(e),
                },
            ),
            Keyword::Arc => Some(
                match arc_ref(kp.parameter) {
                    Ok((_, v)) => Ok(ShapeElement::Arc(v)),
                    Err(e) => Err(e),
                },
            ),
            Keyword::Circle => Some(
                match circle_ref(kp.parameter) {
                    Ok((_, v)) => Ok(ShapeElement::Circle(v)),
                    Err(e) => Err(e),
                },
            ),
            Keyword::Rectangle => Some(
                match rectangle_ref(kp.parameter) {
                    Ok((_, v)) => Ok(ShapeElement::Rectangle(v)),
                    Err(e) => Err(e),
                },
            ),
            Keyword::Fiducial => Some(
                match x_y_ref(kp.parameter) {
                    Ok((_, v)) => Ok(ShapeElement::Fiducial(v)),
                    Err(e) => Err(e),
                },
            ),
            _ => None,
        }
    }
}

impl Artwork {
    /// Decodes the parameter of an `ARTWORK` line of a shape.
    pub fn from_parameters(params: &str) -> (r: Result<Artwork, ParseError>)
        ensures
            agrees_whole(r, spec_shape_artwork(params@)),
    {
        reveal(spec_shape_artwork);
        let (s1, name) = artwork_name(params)?;
        let (s2, xy) = sp_x_y_ref(s1)?;
        let (s3, rotation) = sp_number(s2)?;
        let (_, mirror) = sp_mirror(s3)?;
        let r = Artwork { name, xy, rotation, mirror, attributes: Vec::new() };
        assert(r.attributes.deep_view() =~= Seq::empty());
        Ok(r)
    }
}

impl Fid {
    /// Decodes the parameter of a `FID` line of a shape.
    pub fn from_parameters(params: &str) -> (r: Result<Fid, ParseError>)
        ensures
            agrees_whole(r, spec_placed_pad(params@)),
    {
        reveal(spec_placed_pad);
        let (s1, name) = fid_name(params)?;
        let (s2, pad_name) = sp_string(s1)?;
        let (s3, xy) = sp_x_y_ref(s2)?;
        let (s4, layer) = sp_layer(s3)?;
        let (s5, rotation) = sp_number(s4)?;
        let (_, mirror) = sp_mirror(s5)?;
        let r = Fid { name, pad_name, xy, layer, rotation, mirror, attributes: Vec::new() };
        assert(r.attributes.deep_view() =~= Seq::empty());
        Ok(r)
    }
}

impl Pin {
    /// Decodes the parameter of a `PIN` line of a shape.
    pub fn from_parameters(params: &str) -> (r: Result<Pin, ParseError>)
        ensures
            agrees_whole(r, spec_placed_pad(params@)),
    {
        reveal(spec_placed_pad);
        let (s1, name) = pin_name(params)?;
        let (s2, pad_name) = sp_string(s1)?;
        let (s3, xy) = sp_x_y_ref(s2)?;
        let (s4, layer) = sp_layer(s3)?;
        let (s5, rotation) = sp_number(s4)?;
        let (_, mirror) = sp_mirror(s5)?;
        let r = Pin { name, pad_name, xy, layer, rotation, mirror, attributes: Vec::new() };
        assert(r.attributes.deep_view() =~= Seq::empty());
        Ok(r)
    }
}

impl SubShape {
    /// Decodes a line that opens a sub-record; `None` for a line with another
    /// keyword.
    pub fn from_line(kp: &KeywordParam) -> (r: Option<Result<SubShape, ParseError>>)
        ensures
            match r {
                Some(sub) => spec_subshape_new(kp.deep_view()) matches Some(m) && agrees_whole(
                    sub,
                    m,
                ),
                None => spec_subshape_new(kp.deep_view()) is None,
            },
    {
        match Keyword::of(kp.keyword) {
            Keyword::Artwork => Some(
                match Artwork::from_parameters(kp.parameter) {
                    Ok(v) => Ok(SubShape::Artwork(v)),
                    Err(e) => Err(e),
                },
            ),
            Keyword::Fid => Some(
                match Fid::from_parameters(kp.parameter) {
                    Ok(v) => Ok(SubShape::Fid(v)),
                    Err(e) => Err(e),
                },
            ),
            Keyword::Pin => Some(
                match Pin::from_parameters(kp.parameter) {
                    Ok(v) => Ok(SubShape::Pin(v)),
                    Err(e) => Err(e),
                },
            ),
            _ => None,
        }
    }

    /// The sub-record with the attribute `a` added.
    pub fn with_attribute(self, a: Attribute) -> (r: SubShape)
        ensures
            r.deep_view() == spec_subshape_with(self.deep_view(), a.deep_view()),
    {
        match self {
            SubShape::Artwork(mut v) => {
                let ghost before = v.attributes.deep_view();
                v.attributes.push(a);
                assert(v.attributes.deep_view() =~= before.push(a.deep_view()));
                SubShape::Artwork(v)
            },
            SubShape::Fid(mut v) => {
                let ghost before = v.attributes.deep_view();
                v.attributes.push(a);
                assert(v.attributes.deep_view() =~= before.push(a.deep_view()));
                SubShape::Fid(v)
            },
            SubShape::Pin(mut v) => {
                let ghost before = v.attributes.deep_view();
                v.attributes.push(a);
                assert(v.attributes.deep_view() =~= before.push(a.deep_view()));
                SubShape::Pin(v)
            },
        }
    }
}

impl Shape {
    /// Opens the shape that the parameter of a `SHAPE` line names.
    pub fn from_parameters(params: &str, insert: Option<Insert>) -> (r: Result<Shape, ParseError>)
        ensures
            agrees_whole(r, spec_shape_new(params@, insert)),
    {
        let (_, name) = shape_name(params)?;
        let r = Shape {
            name,
            elements: Vec::new(),
            insert,
            height: None,
            subshapes: Vec::new(),
            attributes: Vec::new(),
        };
        assert(r.elements.deep_view() =~= Seq::empty());
        assert(r.subshapes.deep_view() =~= Seq::empty());
        assert(r.attributes.deep_view() =~= Seq::empty());
        Ok(r)
    }
}

/// The builder of one shape.
#[derive(Debug, Clone, PartialEq, Eq)]
pub struct ShapeParser {
    /// The sub-record that is open.
    pub state: Option<SubShape>,
    /// The shape as far as it is built.
    pub shape: Shape,
}

impl DeepView for ShapeParser {
    type V = ShapeParserView;

    open spec fn deep_view(&self) -> ShapeParserView {
        ShapeParserView { open: self.state.deep_view(), shape: self.shape.deep_view() }
    }
}

impl ShapeParser {
    /// Opens the builder of the shape that the parameter of a `SHAPE` line names.
    pub fn from_parameters(params: &str, insert: Option<Insert>) -> (r: Result<
        ShapeParser,
        ParseError,
    >)
        ensures
            match r {
                Ok(p) => spec_shape_new(params@, insert) == Ok::<ShapeView, ParseErrorView>(
                    p.shape.deep_view(),
                ) && p.state is None,
                Err(e) => spec_shape_new(params@, insert) == Err::<ShapeView, ParseErrorView>(
                    e.deep_view(),
                ),
            },
    {
        let shape = Shape::from_parameters(params, insert)?;
        Ok(ShapeParser { state: None, shape })
    }

    /// Closes the open sub-record.
    pub fn done(&mut self)
        ensures
            final(self).state is None,
            final(self).shape.deep_view() == spec_shape_done(old(self).deep_view()),
    {
        if let Some(sub) = self.state.take() {
            let ghost before = self.shape.subshapes.deep_view();
            self.shape.subshapes.push(sub);
            assert(self.shape.subshapes.deep_view() =~= before.push(sub.deep_view()));
        }
    }

    /// Takes in the line `kp`. On an error the builder is as before.
    pub fn ingest(&mut self, kp: &KeywordParam) -> (r: Result<(), ParseError>)
        ensures
            match r {
                Ok(_) => spec_shape_step(old(self).deep_view(), kp.deep_view()) == Ok::<
                    ShapeParserView,
                    ParseErrorView,
                >(final(self).deep_view()),
                Err(e) => spec_shape_step(old(self).deep_view(), kp.deep_view()) == Err::<
                    ShapeParserView,
                    ParseErrorView,
                >(e.deep_view()) && final(self).deep_view() == old(self).deep_view(),
            },
    {
        let key = Keyword::of(kp.keyword);
        if let Keyword::Attribute = key {
            let (_, a) = attrib_ref(kp.parameter)?;
            match self.state.take() {
                Some(sub) => {
                    self.state = Some(sub.with_attribute(a));
                },
                None => {
                    let ghost before = self.shape.attributes.deep_view();
                    self.shape.attributes.push(a);
                    assert(self.shape.attributes.deep_view() =~= before.push(a.deep_view()));
                },
            }
            return Ok(());
        }
        if let Some(sub) = SubShape::from_line(kp) {
            let sub = sub?;
            self.done();
            self.state = Some(sub);
            return Ok(());
        }
        if let Some(element) = ShapeElement::from_line(kp) {
            let element = element?;
            self.done();
            let ghost before = self.shape.elements.deep_view();
            self.shape.elements.push(element);
            assert(self.shape.elements.deep_view() =~= before.push(element.deep_view()));
            return Ok(());
        }
        match key {
            Keyword::Insert => {
                if self.shape.insert.is_none() {
                    let insert = Insert::from_parameters(kp.parameter)?;
                    self.done();
                    self.shape.insert = Some(insert);
                } else {
                    self.done();
                }
                Ok(())
            },
            Keyword::Height => {
                if self.shape.height.is_none() {
                    let (_, h) = height(kp.parameter)?;
                    self.done();
                    self.shape.height = Some(h);
                } else {
                    self.done();
                }
                Ok(())
            },
            _ => Err(unexpected(SectionKind::Shapes, kp.keyword)),
        }
    }
}

/// The builder of the `SHAPES` section.
#[derive(Debug, Clone, PartialEq, Eq)]
pub struct ShapesParser {
    /// The builder of the shape that is open.
    pub state: Option<ShapeParser>,
    /// The insertion style for the shapes to come.
    pub insert: Option<Insert>,
    /// The shapes that are complete.
    pub shapes: Vec<Shape>,
}

impl DeepView for ShapesParser {
    type V = ShapesParserView;

    open spec fn deep_view(&self) -> ShapesParserView {
        ShapesParserView {
            shapes: self.shapes.deep_view(),
            open: self.state.deep_view(),
            insert: self.insert,
        }
    }
}

impl ShapesParser {
    /// The builder before the first line.
    pub fn new() -> (r: ShapesParser)
        ensures
            r.deep_view() == spec_shapes_init(),
    {
        let r = ShapesParser { state: None, insert: None, shapes: Vec::new() };
        assert(r.shapes.deep_view() =~= Seq::empty());
        r
    }

    /// Takes in the line `kp`. On an error the builder is as before.
    pub fn ingest(&mut self, kp: &KeywordParam) -> (r: Result<(), ParseError>)
        ensures
            match r {
                Ok(_) => spec_shapes_step(old(self).deep_view(), kp.deep_view()) == Ok::<
                    ShapesParserView,
                    ParseErrorView,
                >(final(self).deep_view()),
                Err(e) => spec_shapes_step(old(self).deep_view(), kp.deep_view()) == Err::<
                    ShapesParserView,
                    ParseErrorView,
                >(e.deep_view()) && final(self).deep_view() == old(self).deep_view(),
            },
    {
        match Keyword::of(kp.keyword) {
            Keyword::Shape => {
                let next = ShapeParser::from_parameters(kp.parameter, self.insert)?;
                if let Some(mut parser) = self.state.take() {
                    parser.done();
                    let ghost before = self.shapes.deep_view();
                    self.shapes.push(parser.shape);
                    assert(self.shapes.deep_view() =~= before.push(parser.shape.deep_view()));
                }
                self.state = Some(next);
                Ok(())
            },
            key => match self.state.take() {
                Some(mut parser) => {
                    let r = parser.ingest(kp);
                    self.state = Some(parser);
                    r
                },
                None => match key {
                    Keyword::Insert => {
                        let insert = Insert::from_parameters(kp.parameter)?;
                        self.insert = Some(insert);
                        Ok(())
                    },
                    _ => Err(unexpected(SectionKind::Shapes, kp.keyword)),
                },
            },
        }
    }

    /// Closes the open shape and hands out the shapes.
    pub fn finalize(self) -> (r: Vec<Shape>)
        ensures
            r.deep_view() == spec_shapes_flushed(self.deep_view()),
    {
        let mut shapes = self.shapes;
        if let Some(mut parser) = self.state {
            parser.done();
            let ghost before = shapes.deep_view();
            shapes.push(parser.shape);
            assert(shapes.deep_view() =~= before.push(parser.shape.deep_view()));
        }
        shapes
    }
}

/// Parse the `SHAPES` section of a GenCAD file.
pub fn parse_shapes(params: &[KeywordParam]) -> (r: Result<Vec<Shape>, ParseError>)
    ensures
        agrees_whole(r, spec_parse_shapes(params.deep_view())),
{
    let ghost step = |s: ShapesParserView, kp: KeywordParamView| spec_shapes_step(s, kp);
    let ghost lines = params.deep_view();
    let mut sp = ShapesParser::new();
    let mut i: usize = 0;
    while i < params.len()
        invariant
            0 <= i <= params.len(),
            lines == params.deep_view(),
            step == |s: ShapesParserView, kp: KeywordParamView| spec_shapes_step(s, kp),
            run(step, spec_shapes_init(), lines.take(i as int)) == Ok::<
                ShapesParserView,
                ParseErrorView,
            >(sp.deep_view()),
        decreases params.len() - i,
    {
        proof {
            lemma_run_step(step, spec_shapes_init(), lines, i as int);
            lemma_run_error(step, spec_shapes_init(), lines, i as int + 1);
            assert(lines[i as int] == params[i as int].deep_view());
        }
        sp.ingest(&params[i])?;
        i += 1;
    }
    assert(lines.take(i as int) == lines);
    Ok(sp.finalize())
}

/// An attribute belongs to what is open: to the open sub-record, which it
/// leaves open, and else to the shape. Nothing else changes.
pub proof fn lemma_shape_attribute_scope(p: ShapeParserView, kp: KeywordParamView)
    requires
        Keyword::spec_of(kp.keyword) == Keyword::Attribute,
        spec_attrib_ref(kp.parameter) is Ok,
    ensures
        ({
            let a = spec_attrib_ref(kp.parameter)->Ok_0.1;
            spec_shape_step(p, kp) == Ok::<ShapeParserView, ParseErrorView>(
                match p.open {
                    Some(sub) => ShapeParserView {
                        open: Some(spec_subshape_with(sub, a)),
                        shape: p.shape,
                    },
                    None => ShapeParserView {
                        open: None,
                        shape: ShapeView { attributes: p.shape.attributes.push(a), ..p.shape },
                    },
                },
            )
        }),
{
}

/// A line that opens a sub-record closes the one that is open: the open
/// sub-record joins the sub-records of the shape as it is, and the new one is
/// open. Two sub-records are never merged.
pub proof fn lemma_subshape_closed_by_next(p: ShapeParserView, kp: KeywordParamView)
    requires
        spec_subshape_new(kp) matches Some(Ok(_)),
    ensures
        spec_shape_step(p, kp) == Ok::<ShapeParserView, ParseErrorView>(
            ShapeParserView {
                open: Some(spec_subshape_new(kp)->0->Ok_0),
                shape: spec_shape_done(p),
            },
        ),
{
}

/// A line for the shape itself closes the open sub-record as well: where the
/// line is decoded, no sub-record is open behind it, and the one that was
/// open is among the sub-records of the shape.
pub proof fn lemma_subshape_closed_by_parent(p: ShapeParserView, kp: KeywordParamView)
    requires
        spec_shape_element(kp) is Some || Keyword::spec_of(kp.keyword) == Keyword::Insert
            || Keyword::spec_of(kp.keyword) == Keyword::Height,
        spec_shape_step(p, kp) is Ok,
    ensures
        spec_shape_step(p, kp)->Ok_0.open is None,
        spec_shape_step(p, kp)->Ok_0.shape.subshapes == spec_shape_done(p).subshapes,
{
}

/// The end of the section and the next `SHAPE` line close all that is open:
/// the open sub-record joins its shape, and the shape joins the shapes.
pub proof fn lemma_shape_closed_by_next(state: ShapesParserView, kp: KeywordParamView)
    requires
        Keyword::spec_of(kp.keyword) == Keyword::Shape,
        spec_shape_new(kp.parameter, state.insert) is Ok,
        state.open is Some,
    ensures
        spec_shapes_step(state, kp) is Ok,
        spec_shapes_step(state, kp)->Ok_0.shapes == state.shapes.push(
            spec_shape_done(state.open->0),
        ),
        spec_shapes_flushed(state) == state.shapes.push(spec_shape_done(state.open->0)),
{
}

/// The first `SHAPE` line of a section opens its shape, with nothing open in it.
pub proof fn lemma_shapes_first_shape(shape: KeywordParamView)
    requires
        Keyword::spec_of(shape.keyword) == Keyword::Shape,
        spec_shape_new(shape.parameter, None) is Ok,
    ensures
        spec_shapes_step(spec_shapes_init(), shape) == Ok::<ShapesParserView, ParseErrorView>(
            ShapesParserView {
                shapes: Seq::empty(),
                open: Some(
                    ShapeParserView {
                        open: None,
                        shape: spec_shape_new(shape.parameter, None)->Ok_0,
                    },
                ),
                insert: None,
            },
        ),
{
}

/// A `PIN` line in an open shape closes the open sub-record of the shape and
/// opens the pin.
pub proof fn lemma_shapes_pin(state: ShapesParserView, pin: KeywordParamView)
    requires
        state.open is Some,
        Keyword::spec_of(pin.keyword) == Keyword::Pin,
        spec_placed_pad(pin.parameter) is Ok,
    ensures
        spec_shapes_step(state, pin) == Ok::<ShapesParserView, ParseErrorView>(
            ShapesParserView {
                open: Some(
                    ShapeParserView {
                        open: Some(SubShapeView::Pin(spec_placed_pad(pin.parameter)->Ok_0)),
                        shape: spec_shape_done(state.open->0),
                    },
                ),
                ..state
            },
        ),
{
    lemma_subshape_closed_by_next(state.open->0, pin);
}

/// Two `PIN` lines in a row behind a `SHAPE` line give a shape with two pins,
/// in the order of the lines, and not one pin.
pub proof fn lemma_two_pins_two_records(
    shape: KeywordParamView,
    first: KeywordParamView,
    second: KeywordParamView,
)
    requires
        Keyword::spec_of(shape.keyword) == Keyword::Shape,
        spec_shape_new(shape.parameter, None) is Ok,
        Keyword::spec_of(first.keyword) == Keyword::Pin,
        Keyword::spec_of(second.keyword) == Keyword::Pin,
        spec_placed_pad(first.parameter) is Ok,
        spec_placed_pad(second.parameter) is Ok,
    ensures
        spec_parse_shapes(seq![shape, first, second]) == Ok::<Seq<ShapeView>, ParseErrorView>(
            seq![
                ShapeView {
                    subshapes: seq![
                        SubShapeView::Pin(spec_placed_pad(first.parameter)->Ok_0),
                        SubShapeView::Pin(spec_placed_pad(second.parameter)->Ok_0),
                    ],
                    ..spec_shape_new(shape.parameter, None)->Ok_0
                },
            ],
        ),
{
    let step = |s: ShapesParserView, kp: KeywordParamView| spec_shapes_step(s, kp);
    let init = spec_shapes_init();
    let s0 = spec_shape_new(shape.parameter, None)->Ok_0;
    let first_pin = SubShapeView::Pin(spec_placed_pad(first.parameter)->Ok_0);
    let second_pin = SubShapeView::Pin(spec_placed_pad(second.parameter)->Ok_0);
    let st1 = ShapesParserView {
        shapes: Seq::empty(),
        open: Some(ShapeParserView { open: None, shape: s0 }),
        insert: None,
    };
    let st2 = ShapesParserView {
        open: Some(ShapeParserView { open: Some(first_pin), shape: s0 }),
        ..st1
    };
    let s1 = ShapeView { subshapes: s0.subshapes.push(first_pin), ..s0 };
    let st3 = ShapesParserView {
        open: Some(ShapeParserView { open: Some(second_pin), shape: s1 }),
        ..st1
    };
    assert(run(step, init, seq![shape]) == Ok::<ShapesParserView, ParseErrorView>(st1)) by {
        lemma_run_one(step, init, shape);
        lemma_shapes_first_shape(shape);
    }
    assert(run(step, init, seq![shape, first]) == Ok::<ShapesParserView, ParseErrorView>(st2))
        by {
        lemma_run_push(step, init, seq![shape], first);
        assert(seq![shape].push(first) =~= seq![shape, first]);
        lemma_shapes_pin(st1, first);
    }
    assert(run(step, init, seq![shape, first, second]) == Ok::<
        ShapesParserView,
        ParseErrorView,
    >(st3)) by {
        lemma_run_push(step, init, seq![shape, first], second);
        assert(seq![shape, first].push(second) =~= seq![shape, first, second]);
        lemma_shapes_pin(st2, second);
    }
    assert(s0.subshapes =~= Seq::empty()) by {
        assert(spec_string(shape.parameter) is Ok);
    }
    assert(spec_shapes_flushed(st3) =~= seq![ShapeView { subshapes: seq![first_pin, second_pin], ..s0 }]) by {
        assert(s0.subshapes.push(first_pin).push(second_pin) =~= seq![first_pin, second_pin]);
    }
}

/// The insertion style and the height of a shape are decided by their first
/// line: a further line for one that is set changes no field of the shape,
/// whatever it holds, and is no error. It still closes the open sub-record.
pub proof fn lemma_shape_first_wins(p: ShapeParserView, kp: KeywordParamView)
    requires
        (Keyword::spec_of(kp.keyword) == Keyword::Insert && p.shape.insert is Some) || (
        Keyword::spec_of(kp.keyword) == Keyword::Height && p.shape.height is Some),
    ensures
        spec_shape_step(p, kp) == Ok::<ShapeParserView, ParseErrorView>(
            ShapeParserView { open: None, shape: spec_shape_done(p) },
        ),
{
}

/// The line of an element of a shape.
pub open spec fn shape_element_line(v: ShapeElementView) -> Seq<char> {
    match v {
        ShapeElementView::Outline(o) => outline_line(o),
        ShapeElementView::Fiducial(xy) => "FIDUCIAL "@ + x_y_text(xy),
    }
}

/// The line of an insertion style.
pub open spec fn insert_line(i: Insert) -> Seq<char> {
    "INSERT "@ + insert_name(i)
}

/// The lines of an artwork of a shape: its opening line and its attributes.
pub open spec fn shape_artwork_text(v: ArtworkView) -> Seq<char> {
    join_lines(
        seq![
            "ARTWORK "@ + string_text(v.name) + " "@ + x_y_text(v.xy) + " "@ + v.rotation + " "@
                + mirror_text(v.mirror),
            attributes_text(v.attributes),
        ],
    )
}

/// The lines of a pad placed in a shape under the keyword `keyword`: its
/// opening line and its attributes.
pub open spec fn placed_pad_text(keyword: Seq<char>, v: PlacedPadView) -> Seq<char> {
    join_lines(
        seq![
            keyword + " "@ + string_text(v.name) + " "@ + string_text(v.pad_name) + " "@
                + x_y_text(v.xy) + " "@ + layer_text(v.layer) + " "@ + v.rotation + " "@
                + mirror_text(v.mirror),
            attributes_text(v.attributes),
        ],
    )
}

/// The lines of a sub-record of a shape.
pub open spec fn subshape_text(v: SubShapeView) -> Seq<char> {
    match v {
        SubShapeView::Artwork(a) => shape_artwork_text(a),
        SubShapeView::Fid(f) => placed_pad_text("FID"@, f),
        SubShapeView::Pin(p) => placed_pad_text("PIN"@, p),
    }
}

/// The text of an insertion style that may be missing.
pub open spec fn opt_insert_name(v: Option<Insert>) -> Option<Seq<char>> {
    match v {
        Some(i) => Some(insert_name(i)),
        None => None,
    }
}

/// The lines of a shape, in the order in which they are written: the opening
/// line, the elements, the insertion style, the height, the attributes, and
/// the sub-records. The attributes stand before the sub-records, so that they
/// are read back as the shape's own.
pub open spec fn shape_lines(v: ShapeView) -> Seq<Seq<char>> {
    Seq::empty().push("SHAPE "@ + string_text(v.name)) + v.elements.map_values(
        |e: ShapeElementView| shape_element_line(e),
    ) + opt_line("INSERT "@, opt_insert_name(v.insert)) + opt_line("HEIGHT "@, v.height) + seq![
        attributes_text(v.attributes),
    ] + v.subshapes.map_values(|s: SubShapeView| subshape_text(s))
}

/// The text of a shape.
pub open spec fn shape_text(v: ShapeView) -> Seq<char> {
    join_lines(shape_lines(v))
}

/// The text of the `SHAPES` section: the opening line, the shapes, the
/// closing line.
pub open spec fn shapes_text(v: Seq<ShapeView>) -> Seq<char> {
    join_lines(
        seq!["$SHAPES"@] + v.map_values(|s: ShapeView| shape_text(s)) + seq!["$ENDSHAPES"@],
    )
}

impl Insert {
    /// The name of the insertion style.
    pub fn name(&self) -> (r: &'static str)
        ensures
            r@ == insert_name(*self),
    {
        match self {
            Insert::Th => "TH",
            Insert::Axial => "AXIAL",
            Insert::Radial => "RADIAL",
            Insert::Dip => "DIP",
            Insert::Sip => "SIP",
            Insert::Zip => "ZIP",
            Insert::Conn => "CONN",
            Insert::Smd => "SMD",
            Insert::Other => "OTHER",
        }
    }
}

impl ToGencadString for ShapeElement {
    open spec fn gencad(&self) -> Seq<char> {
        shape_element_line(self.deep_view())
    }

    fn to_gencad_string(&self) -> (r: String) {
        match self {
            ShapeElement::Line(v) => concat("LINE ", v.to_gencad_string().as_str()),
            ShapeElement::Arc(v) => concat("ARC ", v.to_gencad_string().as_str()),
            ShapeElement::Circle(v) => concat("CIRCLE ", v.to_gencad_string().as_str()),
            ShapeElement::Rectangle(v) => concat("RECTANGLE ", v.to_gencad_string().as_str()),
            ShapeElement::Fiducial(v) => concat("FIDUCIAL ", v.to_gencad_string().as_str()),
        }
    }
}

impl ToGencadString for Insert {
    open spec fn gencad(&self) -> Seq<char> {
        insert_line(*self)
    }

    fn to_gencad_string(&self) -> (r: String) {
        concat("INSERT ", self.name())
    }
}

impl ToGencadString for Artwork {
    open spec fn gencad(&self) -> Seq<char> {
        shape_artwork_text(self.deep_view())
    }

    fn to_gencad_string(&self) -> (r: String) {
        let mut head = concat("ARTWORK ", self.name.to_gencad_string().as_str());
        head.append(" ");
        head.append(self.xy.to_gencad_string().as_str());
        head.append(" ");
        head.append(self.rotation.as_str());
        head.append(" ");
        head.append(self.mirror.to_gencad_string().as_str());
        let mut lines: Vec<String> = Vec::new();
        lines.push(head);
        lines.push(self.attributes.to_gencad_string());
        assert(lines.deep_view() =~= seq![head@, attributes_text(self.attributes.deep_view())]);
        join(&lines)
    }
}

/// Renders a pad placed in a shape under the keyword `keyword`.
fn render_placed_pad(
    keyword: &str,
    name: &String,
    pad_name: &String,
    xy: &XYRef,
    layer: &Layer,
    rotation: &Number,
    mirror: &Mirror,
    attributes: &Vec<Attribute>,
) -> (r: String)
    ensures
        r@ == placed_pad_text(
            keyword@,
            PlacedPadView {
                name: name@,
                pad_name: pad_name@,
                xy: xy.deep_view(),
                layer: *layer,
                rotation: rotation.deep_view(),
                mirror: *mirror,
                attributes: attributes.deep_view(),
            },
        ),
{
    let mut head = concat(keyword, " ");
    head.append(name.to_gencad_string().as_str());
    head.append(" ");
    head.append(pad_name.to_gencad_string().as_str());
    head.append(" ");
    head.append(xy.to_gencad_string().as_str());
    head.append(" ");
    head.append(layer.to_gencad_string().as_str());
    head.append(" ");
    head.append(rotation.as_str());
    head.append(" ");
    head.append(mirror.to_gencad_string().as_str());
    let mut lines: Vec<String> = Vec::new();
    lines.push(head);
    lines.push(attributes.to_gencad_string());
    assert(lines.deep_view() =~= seq![head@, attributes_text(attributes.deep_view())]);
    join(&lines)
}

impl ToGencadString for Fid {
    open spec fn gencad(&self) -> Seq<char> {
        placed_pad_text("FID"@, self.deep_view())
    }

    fn to_gencad_string(&self) -> (r: String) {
        render_placed_pad(
            "FID",
            &self.name,
            &self.pad_name,
            &self.xy,
            &self.layer,
            &self.rotation,
            &self.mirror,
            &self.attributes,
        )
    }
}

impl ToGencadString for Pin {
    open spec fn gencad(&self) -> Seq<char> {
        placed_pad_text("PIN"@, self.deep_view())
    }

    fn to_gencad_string(&self) -> (r: String) {
        render_placed_pad(
            "PIN",
            &self.name,
            &self.pad_name,
            &self.xy,
            &self.layer,
            &self.rotation,
            &self.mirror,
            &self.attributes,
        )
    }
}

impl ToGencadString for SubShape {
    open spec fn gencad(&self) -> Seq<char> {
        subshape_text(self.deep_view())
    }

    fn to_gencad_string(&self) -> (r: String) {
        match self {
            SubShape::Artwork(artwork) => artwork.to_gencad_string(),
            SubShape::Fid(fid) => fid.to_gencad_string(),
            SubShape::Pin(pin) => pin.to_gencad_string(),
        }
    }
}

/// Renders the name of an insertion style that may be missing.
pub fn render_insert(insert: Option<Insert>) -> (r: Option<String>)
    ensures
        r.deep_view() == opt_insert_name(insert),
{
    match insert {
        Some(i) => Some(String::from_str(i.name())),
        None => None,
    }
}

impl ToGencadString for Shape {
    open spec fn gencad(&self) -> Seq<char> {
        shape_text(self.deep_view())
    }

    fn to_gencad_string(&self) -> (r: String) {
        let mut lines: Vec<String> = Vec::new();
        assert(lines.deep_view() =~= Seq::empty());
        push_line(&mut lines, concat("SHAPE ", self.name.to_gencad_string().as_str()));
        let elements = render_all(&self.elements);
        assert(elements.deep_view() =~= self.elements.deep_view().map_values(
            |e: ShapeElementView| shape_element_line(e),
        ));
        extend_lines(&mut lines, elements);
        push_opt_line(&mut lines, "INSERT ", render_insert(self.insert));
        push_opt_line(&mut lines, "HEIGHT ", render_opt(&self.height));
        let ghost head = lines.deep_view();
        push_line(&mut lines, self.attributes.to_gencad_string());
        assert(lines.deep_view() =~= head + seq![attributes_text(self.attributes.deep_view())]);
        let subshapes = render_all(&self.subshapes);
        assert(subshapes.deep_view() =~= self.subshapes.deep_view().map_values(
            |s: SubShapeView| subshape_text(s),
        ));
        extend_lines(&mut lines, subshapes);
        join(&lines)
    }
}

impl ToGencadString for Vec<Shape> {
    open spec fn gencad(&self) -> Seq<char> {
        shapes_text(self.deep_view())
    }

    fn to_gencad_string(&self) -> (r: String) {
        let mut lines: Vec<String> = Vec::new();
        lines.push(String::from_str("$SHAPES"));
        assert(lines.deep_view() =~= seq!["$SHAPES"@]);
        let shapes = render_all(self);
        assert(shapes.deep_view() =~= self.deep_view().map_values(|s: ShapeView| shape_text(s)));
        extend_lines(&mut lines, shapes);
        let ghost body = lines.deep_view();
        push_line(&mut lines, String::from_str("$ENDSHAPES"));
        assert(lines.deep_view() =~= body + seq!["$ENDSHAPES"@]);
        join(&lines)
    }
}

/// Whether the element `v` of a shape can be written and read back.
pub open spec fn shape_element_ok(v: ShapeElementView) -> bool {
    match v {
        ShapeElementView::Outline(o) => outline_ok(o),
        ShapeElementView::Fiducial(xy) => x_y_ok(xy),
    }
}

/// Whether the sub-record `v` of a shape can be written and read back.
pub open spec fn subshape_ok(v: SubShapeView) -> bool {
    match v {
        SubShapeView::Artwork(a) => is_writable(a.name) && x_y_ok(a.xy) && is_number(a.rotation)
            && attributes_ok(a.attributes),
        SubShapeView::Fid(p) => placed_pad_ok(p),
        SubShapeView::Pin(p) => placed_pad_ok(p),
    }
}

/// Whether the placed pad `v` can be written and read back.
pub open spec fn placed_pad_ok(v: PlacedPadView) -> bool {
    is_writable(v.name) && is_writable(v.pad_name) && x_y_ok(v.xy) && is_number(v.rotation)
        && attributes_ok(v.attributes)
}

/// Whether the shape `v` can be written and read back: its strings and
/// numbers, and those of its elements, sub-records and attributes, can.
pub open spec fn shape_ok(v: ShapeView) -> bool {
    &&& is_writable(v.name)
    &&& forall|i: int| 0 <= i < v.elements.len() ==> shape_element_ok(#[trigger] v.elements[i])
    &&& v.height matches Some(h) ==> is_number(h)
    &&& forall|i: int| 0 <= i < v.subshapes.len() ==> subshape_ok(#[trigger] v.subshapes[i])
    &&& attributes_ok(v.attributes)
}

/// The statement of an element of a shape.
pub open spec fn shape_element_statement(v: ShapeElementView) -> KeywordParamView {
    match v {
        ShapeElementView::Outline(o) => outline_statement(o),
        ShapeElementView::Fiducial(xy) => KeywordParamView {
            keyword: "FIDUCIAL"@,
            parameter: x_y_text(xy),
        },
    }
}

/// The parameter of the opening line of an artwork of a shape.
pub open spec fn shape_artwork_parameter(v: ArtworkView) -> Seq<char> {
    string_text(v.name) + " "@ + x_y_text(v.xy) + " "@ + v.rotation + " "@ + mirror_text(v.mirror)
}

/// The parameter of the opening line of a placed pad.
pub open spec fn placed_pad_parameter(v: PlacedPadView) -> Seq<char> {
    string_text(v.name) + " "@ + string_text(v.pad_name) + " "@ + x_y_text(v.xy) + " "@
        + layer_text(v.layer) + " "@ + v.rotation + " "@ + mirror_text(v.mirror)
}

/// The statement of the opening line of a sub-record of a shape.
pub open spec fn subshape_opener(v: SubShapeView) -> KeywordParamView {
    match v {
        SubShapeView::Artwork(a) => KeywordParamView {
            keyword: "ARTWORK"@,
            parameter: shape_artwork_parameter(a),
        },
        SubShapeView::Fid(p) => KeywordParamView {
            keyword: "FID"@,
            parameter: placed_pad_parameter(p),
        },
        SubShapeView::Pin(p) => KeywordParamView {
            keyword: "PIN"@,
            parameter: placed_pad_parameter(p),
        },
    }
}

/// The attributes of a sub-record of a shape.
pub open spec fn subshape_attributes(v: SubShapeView) -> Seq<AttributeView> {
    match v {
        SubShapeView::Artwork(a) => a.attributes,
        SubShapeView::Fid(p) => p.attributes,
        SubShapeView::Pin(p) => p.attributes,
    }
}

/// The sub-record `v` with the attributes `list`.
pub open spec fn subshape_with_attributes(v: SubShapeView, list: Seq<AttributeView>) -> SubShapeView {
    match v {
        SubShapeView::Artwork(a) => SubShapeView::Artwork(ArtworkView { attributes: list, ..a }),
        SubShapeView::Fid(p) => SubShapeView::Fid(PlacedPadView { attributes: list, ..p }),
        SubShapeView::Pin(p) => SubShapeView::Pin(PlacedPadView { attributes: list, ..p }),
    }
}

/// The statements of a sub-record of a shape, in the order of its lines.
pub open spec fn subshape_statements(v: SubShapeView) -> Seq<KeywordParamView> {
    seq![subshape_opener(v)] + subshape_attributes(v).map_values(
        |a: AttributeView| attribute_statement(a),
    )
}

/// The name of an insertion style alone on its line is read back.
pub proof fn lemma_whole_insert(v: Insert)
    ensures
        spec_insert_line(insert_name(v)) == Ok::<Insert, ParseErrorView>(v),
        one_line(insert_name(v)),
{
    reveal(string_text);
    reveal_strlit("TH");
    reveal_strlit("AXIAL");
    reveal_strlit("RADIAL");
    reveal_strlit("DIP");
    reveal_strlit("SIP");
    reveal_strlit("ZIP");
    reveal_strlit("CONN");
    reveal_strlit("SMD");
    reveal_strlit("OTHER");
    let n = insert_name(v);
    assert(is_plain(n));
    assert(is_writable(n));
    assert(string_text(n) == n);
    lemma_whole_string(n);
    match v {
        Insert::Th => {
        },
        Insert::Axial => {
            assert("AXIAL"@.len() != "TH"@.len());
        },
        Insert::Radial => {
            assert("RADIAL"@.len() != "TH"@.len());
            assert("RADIAL"@.len() != "AXIAL"@.len());
        },
        Insert::Dip => {
            assert("DIP"@.len() != "TH"@.len());
            assert("DIP"@.len() != "AXIAL"@.len());
            assert("DIP"@.len() != "RADIAL"@.len());
        },
        Insert::Sip => {
            assert("SIP"@.len() != "TH"@.len());
            assert("SIP"@.len() != "AXIAL"@.len());
            assert("SIP"@.len() != "RADIAL"@.len());
            assert("SIP"@[0] != "DIP"@[0]);
        },
        Insert::Zip => {
            assert("ZIP"@.len() != "TH"@.len());
            assert("ZIP"@.len() != "AXIAL"@.len());
            assert("ZIP"@.len() != "RADIAL"@.len());
            assert("ZIP"@[0] != "DIP"@[0]);
            assert("ZIP"@[0] != "SIP"@[0]);
        },
        Insert::Conn => {
            assert("CONN"@.len() != "TH"@.len());
            assert("CONN"@.len() != "AXIAL"@.len());
            assert("CONN"@.len() != "RADIAL"@.len());
            assert("CONN"@.len() != "DIP"@.len());
            assert("CONN"@.len() != "SIP"@.len());
            assert("CONN"@.len() != "ZIP"@.len());
        },
        Insert::Smd => {
            assert("SMD"@.len() != "TH"@.len());
            assert("SMD"@.len() != "AXIAL"@.len());
            assert("SMD"@.len() != "RADIAL"@.len());
            assert("SMD"@[0] != "DIP"@[0]);
            assert("SMD"@[1] != "SIP"@[1]);
            assert("SMD"@[0] != "ZIP"@[0]);
            assert("SMD"@.len() != "CONN"@.len());
        },
        Insert::Other => {
            assert("OTHER"@.len() != "TH"@.len());
            assert("OTHER"@[0] != "AXIAL"@[0]);
            assert("OTHER"@.len() != "RADIAL"@.len());
            assert("OTHER"@.len() != "DIP"@.len());
            assert("OTHER"@.len() != "SIP"@.len());
            assert("OTHER"@.len() != "ZIP"@.len());
            assert("OTHER"@.len() != "CONN"@.len());
            assert("OTHER"@.len() != "SMD"@.len());
        },
    }
}

/// The statement of an element of a shape is read back as the element: it
/// opens no sub-record. Its line is read as its statement.
proof fn lemma_whole_shape_element(v: ShapeElementView)
    requires
        shape_element_ok(v),
    ensures
        Keyword::spec_of(shape_element_statement(v).keyword) != Keyword::Attribute,
        Keyword::spec_of(shape_element_statement(v).keyword) != Keyword::Shape,
        spec_subshape_new(shape_element_statement(v)) is None,
        spec_shape_element(shape_element_statement(v)) == Some(
            Ok::<ShapeElementView, ParseErrorView>(v),
        ),
        reads_as(shape_element_line(v), seq![shape_element_statement(v)]),
{
    match v {
        ShapeElementView::Outline(o) => {
            lemma_whole_outline(o);
            lemma_outline_keyword(o);
        },
        ShapeElementView::Fiducial(xy) => {
            reveal_strlit(" ");
            lemma_keyword(Keyword::Fiducial);
            reveal_strlit("FIDUCIAL ");
            reveal_strlit("FIDUCIAL");
            assert("FIDUCIAL "@ =~= "FIDUCIAL"@ + " "@);
            lemma_whole_x_y(xy);
            lemma_reads_keyword_line("FIDUCIAL "@, "FIDUCIAL"@, x_y_text(xy));
            let kp = shape_element_statement(v);
            assert(spec_outline(kp) is None);
        },
    }
}

/// The opening line of an artwork of a shape is read back.
proof fn lemma_whole_shape_artwork(v: ArtworkView)
    requires
        subshape_ok(SubShapeView::Artwork(v)),
    ensures
        spec_shape_artwork(shape_artwork_parameter(v)) == Ok::<ArtworkView, ParseErrorView>(
            ArtworkView { attributes: Seq::empty(), ..v },
        ),
        one_line(shape_artwork_parameter(v)),
{
    reveal(spec_shape_artwork);
    reveal_strlit(" ");
    let none = Seq::<char>::empty();
    let tail3 = " "@ + (mirror_text(v.mirror) + none);
    let tail2 = " "@ + (v.rotation + tail3);
    let tail1 = " "@ + (x_y_text(v.xy) + tail2);
    lemma_sp_mirror_round_trip(v.mirror, none);
    lemma_sp_number_round_trip(v.rotation, tail3);
    lemma_sp_x_y_round_trip(v.xy, tail2);
    lemma_string_round_trip(v.name, tail1);
    assert(shape_artwork_parameter(v) =~= string_text(v.name) + tail1);
    lemma_string_one_line(v.name);
    lemma_x_y_one_line(v.xy);
    lemma_number_one_line(v.rotation);
    lemma_mirror_text_one_line(v.mirror);
    lemma_one_line_concat(string_text(v.name), " "@);
    lemma_one_line_concat(string_text(v.name) + " "@, x_y_text(v.xy));
    lemma_one_line_concat(string_text(v.name) + " "@ + x_y_text(v.xy), " "@);
    lemma_one_line_concat(string_text(v.name) + " "@ + x_y_text(v.xy) + " "@, v.rotation);
    lemma_one_line_concat(string_text(v.name) + " "@ + x_y_text(v.xy) + " "@ + v.rotation, " "@);
    lemma_one_line_concat(string_text(v.name) + " "@ + x_y_text(v.xy) + " "@ + v.rotation + " "@, mirror_text(v.mirror));
}

/// The parameter of the opening line of a placed pad is read back.
#[verifier::rlimit(80)]
#[verifier::spinoff_prover]
proof fn lemma_placed_pad_parsed(v: PlacedPadView)
    requires
        placed_pad_ok(v),
    ensures
        spec_placed_pad(placed_pad_parameter(v)) == Ok::<PlacedPadView, ParseErrorView>(
            PlacedPadView { attributes: Seq::empty(), ..v },
        ),
{
    reveal(spec_placed_pad);
    let none = Seq::<char>::empty();
    let tail5 = " "@ + (mirror_text(v.mirror) + none);
    let tail4 = " "@ + (v.rotation + tail5);
    let tail3 = " "@ + (layer_text(v.layer) + tail4);
    let tail2 = " "@ + (x_y_text(v.xy) + tail3);
    let tail1 = " "@ + (string_text(v.pad_name) + tail2);
    lemma_sp_mirror_round_trip(v.mirror, none);
    lemma_sp_number_round_trip(v.rotation, tail5);
    lemma_sp_layer_round_trip(v.layer, tail4);
    lemma_sp_x_y_round_trip(v.xy, tail3);
    lemma_sp_string_round_trip(v.pad_name, tail2);
    lemma_string_round_trip(v.name, tail1);
    assert(placed_pad_parameter(v) =~= string_text(v.name) + tail1);
}

/// The opening line of a placed pad is read back.
proof fn lemma_whole_placed_pad(v: PlacedPadView)
    requires
        placed_pad_ok(v),
    ensures
        spec_placed_pad(placed_pad_parameter(v)) == Ok::<PlacedPadView, ParseErrorView>(
            PlacedPadView { attributes: Seq::empty(), ..v },
        ),
        one_line(placed_pad_parameter(v)),
{
    reveal_strlit(" ");
    lemma_placed_pad_parsed(v);
    lemma_string_one_line(v.name);
    lemma_string_one_line(v.pad_name);
    lemma_x_y_one_line(v.xy);
    lemma_layer_text_one_line(v.layer);
    lemma_number_one_line(v.rotation);
    lemma_mirror_text_one_line(v.mirror);
    lemma_one_line_concat(string_text(v.name), " "@);
    lemma_one_line_concat(string_text(v.name) + " "@, string_text(v.pad_name));
    lemma_one_line_concat(string_text(v.name) + " "@ + string_text(v.pad_name), " "@);
    lemma_one_line_concat(string_text(v.name) + " "@ + string_text(v.pad_name) + " "@, x_y_text(v.xy));
    lemma_one_line_concat(string_text(v.name) + " "@ + string_text(v.pad_name) + " "@ + x_y_text(v.xy), " "@);
    lemma_one_line_concat(string_text(v.name) + " "@ + string_text(v.pad_name) + " "@ + x_y_text(v.xy) + " "@, layer_text(v.layer));
    lemma_one_line_concat(string_text(v.name) + " "@ + string_text(v.pad_name) + " "@ + x_y_text(v.xy) + " "@ + layer_text(v.layer), " "@);
    lemma_one_line_concat(string_text(v.name) + " "@ + string_text(v.pad_name) + " "@ + x_y_text(v.xy) + " "@ + layer_text(v.layer) + " "@, v.rotation);
    lemma_one_line_concat(string_text(v.name) + " "@ + string_text(v.pad_name) + " "@ + x_y_text(v.xy) + " "@ + layer_text(v.layer) + " "@ + v.rotation, " "@);
    lemma_one_line_concat(string_text(v.name) + " "@ + string_text(v.pad_name) + " "@ + x_y_text(v.xy) + " "@ + layer_text(v.layer) + " "@ + v.rotation + " "@, mirror_text(v.mirror));
}

/// The opening line of a sub-record of a shape is read back: it is no
/// attribute, and opens the sub-record.
proof fn lemma_whole_subshape_opener(v: SubShapeView)
    requires
        subshape_ok(v),
    ensures
        Keyword::spec_of(subshape_opener(v).keyword) != Keyword::Attribute,
        Keyword::spec_of(subshape_opener(v).keyword) != Keyword::Shape,
        spec_subshape_new(subshape_opener(v)) == Some(
            Ok::<SubShapeView, ParseErrorView>(subshape_with_attributes(v, Seq::empty())),
        ),
        one_line(subshape_opener(v).parameter),
{
    match v {
        SubShapeView::Artwork(a) => {
            lemma_keyword(Keyword::Artwork);
            lemma_whole_shape_artwork(a);
        },
        SubShapeView::Fid(p) => {
            lemma_keyword(Keyword::Fid);
            lemma_whole_placed_pad(p);
        },
        SubShapeView::Pin(p) => {
            lemma_keyword(Keyword::Pin);
            lemma_whole_placed_pad(p);
        },
    }
}

/// The text of a sub-record of a shape is read as its statements.
proof fn lemma_subshape_reads(v: SubShapeView)
    requires
        subshape_ok(v),
    ensures
        reads_as(subshape_text(v), subshape_statements(v)),
{
    reveal_strlit(" ");
    lemma_whole_subshape_opener(v);
    lemma_reads_empty();
    let none = Seq::<Seq<char>>::empty();
    assert(join_lines(none) =~= Seq::<char>::empty());
    let opener = subshape_opener(v);
    let attributes = subshape_attributes(v).map_values(|a: AttributeView| attribute_statement(a));
    let s0 = Seq::<KeywordParamView>::empty() + seq![opener];
    match v {
        SubShapeView::Artwork(a) => {
            lemma_keyword(Keyword::Artwork);
            reveal_strlit("ARTWORK ");
            reveal_strlit("ARTWORK");
            assert("ARTWORK "@ =~= "ARTWORK"@ + " "@);
            let head = "ARTWORK "@ + shape_artwork_parameter(a);
            lemma_reads_keyword_line("ARTWORK "@, "ARTWORK"@, shape_artwork_parameter(a));
            lemma_reads_more(none, Seq::empty(), head, seq![opener]);
            lemma_reads_attributes(a.attributes);
            lemma_reads_more(none.push(head), s0, attributes_text(a.attributes), attributes);
            assert(head =~= "ARTWORK "@ + string_text(a.name) + " "@ + x_y_text(a.xy) + " "@
                + a.rotation + " "@ + mirror_text(a.mirror));
            assert(none.push(head).push(attributes_text(a.attributes)) =~= seq![
                "ARTWORK "@ + string_text(a.name) + " "@ + x_y_text(a.xy) + " "@ + a.rotation
                    + " "@ + mirror_text(a.mirror),
                attributes_text(a.attributes),
            ]);
        },
        SubShapeView::Fid(p) => {
            lemma_keyword(Keyword::Fid);
            reveal_strlit("FID");
            lemma_placed_pad_text("FID"@, p);
            lemma_reads_keyword_line("FID"@ + " "@, "FID"@, placed_pad_parameter(p));
            lemma_reads_more(
                none,
                Seq::empty(),
                "FID"@ + " "@ + placed_pad_parameter(p),
                seq![opener],
            );
            lemma_reads_attributes(p.attributes);
            lemma_reads_more(
                none.push("FID"@ + " "@ + placed_pad_parameter(p)),
                s0,
                attributes_text(p.attributes),
                attributes,
            );
        },
        SubShapeView::Pin(p) => {
            lemma_keyword(Keyword::Pin);
            reveal_strlit("PIN");
            lemma_placed_pad_text("PIN"@, p);
            lemma_reads_keyword_line("PIN"@ + " "@, "PIN"@, placed_pad_parameter(p));
            lemma_reads_more(
                none,
                Seq::empty(),
                "PIN"@ + " "@ + placed_pad_parameter(p),
                seq![opener],
            );
            lemma_reads_attributes(p.attributes);
            lemma_reads_more(
                none.push("PIN"@ + " "@ + placed_pad_parameter(p)),
                s0,
                attributes_text(p.attributes),
                attributes,
            );
        },
    }
    assert(s0 + attributes =~= subshape_statements(v));
}

/// The text of a placed pad is its opening line and its attributes.
proof fn lemma_placed_pad_text(keyword: Seq<char>, p: PlacedPadView)
    ensures
        placed_pad_text(keyword, p) == join_lines(
            Seq::<Seq<char>>::empty().push(keyword + " "@ + placed_pad_parameter(p)).push(
                attributes_text(p.attributes),
            ),
        ),
{
    assert(keyword + " "@ + placed_pad_parameter(p) =~= keyword + " "@ + string_text(p.name) + " "@
        + string_text(p.pad_name) + " "@ + x_y_text(p.xy) + " "@ + layer_text(p.layer) + " "@
        + p.rotation + " "@ + mirror_text(p.mirror));
    assert(Seq::<Seq<char>>::empty().push(keyword + " "@ + placed_pad_parameter(p)).push(
        attributes_text(p.attributes),
    ) =~= seq![
        keyword + " "@ + string_text(p.name) + " "@ + string_text(p.pad_name) + " "@ + x_y_text(
            p.xy,
        ) + " "@ + layer_text(p.layer) + " "@ + p.rotation + " "@ + mirror_text(p.mirror),
        attributes_text(p.attributes),
    ]);
}

/// The statements of the sub-records `v` of a shape, one behind the other.
pub open spec fn subshapes_statements(v: Seq<SubShapeView>) -> Seq<KeywordParamView> {
    concat_all(v.map_values(|s: SubShapeView| subshape_statements(s)))
}

/// The statements of a shape before its sub-records: the opening line, the
/// elements, the insertion style and the height.
pub open spec fn shape_head_statements(v: ShapeView) -> Seq<KeywordParamView> {
    seq![KeywordParamView { keyword: "SHAPE"@, parameter: string_text(v.name) }]
        + v.elements.map_values(|e: ShapeElementView| shape_element_statement(e)) + opt_statement(
        "INSERT"@,
        opt_insert_name(v.insert),
    ) + opt_statement("HEIGHT"@, v.height)
}

/// The statements of a shape, in the order of its lines.
pub open spec fn shape_statements(v: ShapeView) -> Seq<KeywordParamView> {
    shape_head_statements(v) + v.attributes.map_values(|a: AttributeView| attribute_statement(a))
        + subshapes_statements(v.subshapes)
}

/// The shape `v` as far as the lines before its sub-records give it.
pub open spec fn shape_head(v: ShapeView) -> ShapeView {
    ShapeView { subshapes: Seq::empty(), attributes: Seq::empty(), ..v }
}

/// The state of the builder of a shape behind the statements of the shape
/// `v`: the last sub-record is open, if there is one.
pub open spec fn shape_state(v: ShapeView) -> ShapeParserView {
    if v.subshapes.len() == 0 {
        ShapeParserView { open: None, shape: v }
    } else {
        ShapeParserView {
            open: Some(v.subshapes.last()),
            shape: ShapeView { subshapes: v.subshapes.drop_last(), ..v },
        }
    }
}

/// The text of a shape is read as its statements.
proof fn lemma_shape_reads(v: ShapeView)
    requires
        shape_ok(v),
    ensures
        reads_as(shape_text(v), shape_statements(v)),
{
    reveal_strlit(" ");
    reveal_strlit("SHAPE ");
    reveal_strlit("SHAPE");
    assert("SHAPE "@ =~= "SHAPE"@ + " "@);
    reveal_strlit("INSERT ");
    reveal_strlit("INSERT");
    assert("INSERT "@ =~= "INSERT"@ + " "@);
    reveal_strlit("HEIGHT ");
    reveal_strlit("HEIGHT");
    assert("HEIGHT "@ =~= "HEIGHT"@ + " "@);
    lemma_keyword(Keyword::Shape);
    lemma_keyword(Keyword::Insert);
    lemma_keyword(Keyword::Height);
    lemma_whole_string(v.name);
    lemma_reads_empty();
    let none = Seq::<Seq<char>>::empty();
    assert(join_lines(none) =~= Seq::<char>::empty());
    let head = KeywordParamView { keyword: "SHAPE"@, parameter: string_text(v.name) };
    lemma_reads_keyword_line("SHAPE "@, "SHAPE"@, string_text(v.name));
    lemma_reads_more(none, Seq::empty(), "SHAPE "@ + string_text(v.name), seq![head]);
    let t0 = none.push("SHAPE "@ + string_text(v.name));
    let s0 = Seq::<KeywordParamView>::empty() + seq![head];
    let element_texts = v.elements.map_values(|e: ShapeElementView| shape_element_line(e));
    let elements = v.elements.map_values(|e: ShapeElementView| shape_element_statement(e));
    assert forall|i: int| 0 <= i < v.elements.len() implies reads_as(
        shape_element_line(#[trigger] v.elements[i]),
        seq![shape_element_statement(v.elements[i])],
    ) by {
        lemma_whole_shape_element(v.elements[i]);
    }
    lemma_reads_each(
        v.elements,
        |e: ShapeElementView| shape_element_line(e),
        |e: ShapeElementView| shape_element_statement(e),
    );
    lemma_reads_concat(t0, s0, element_texts, elements);
    let t1 = t0 + element_texts;
    let s1 = s0 + elements;
    if let Some(i) = v.insert {
        lemma_whole_insert(i);
    }
    lemma_reads_opt(t1, s1, "INSERT "@, "INSERT"@, opt_insert_name(v.insert));
    let t2 = t1 + opt_line("INSERT "@, opt_insert_name(v.insert));
    let s2 = s1 + opt_statement("INSERT"@, opt_insert_name(v.insert));
    if let Some(h) = v.height {
        lemma_whole_number(h);
    }
    lemma_reads_opt(t2, s2, "HEIGHT "@, "HEIGHT"@, v.height);
    let t3 = t2 + opt_line("HEIGHT "@, v.height);
    let s3 = s2 + opt_statement("HEIGHT"@, v.height);
    lemma_reads_attributes(v.attributes);
    let a = v.attributes.map_values(|a: AttributeView| attribute_statement(a));
    lemma_reads_more(t3, s3, attributes_text(v.attributes), a);
    let t4 = t3.push(attributes_text(v.attributes));
    let s4 = s3 + a;
    let sub_texts = v.subshapes.map_values(|s: SubShapeView| subshape_text(s));
    let sub_lists = v.subshapes.map_values(|s: SubShapeView| subshape_statements(s));
    assert forall|i: int| 0 <= i < sub_texts.len() implies reads_as(
        #[trigger] sub_texts[i],
        sub_lists[i],
    ) by {
        assert(subshape_ok(v.subshapes[i]));
        lemma_subshape_reads(v.subshapes[i]);
    }
    lemma_reads_join_lines(sub_texts, sub_lists);
    if sub_texts.len() == 0 {
        assert(concat_all(sub_lists) =~= Seq::<KeywordParamView>::empty());
    }
    lemma_reads_concat(t4, s4, sub_texts, subshapes_statements(v.subshapes));
    assert(t4 + sub_texts =~= shape_lines(v));
    assert(s4 + subshapes_statements(v.subshapes) =~= shape_statements(v));
}

/// The statements of a shape before its sub-records close the shape that
/// is open, open the shape, and give it its elements, its insertion style
/// and its height.
proof fn lemma_shape_head_run(state: ShapesParserView, v: ShapeView)
    requires
        shape_ok(v),
        state.insert is None,
    ensures
        run(
            |s: ShapesParserView, kp: KeywordParamView| spec_shapes_step(s, kp),
            state,
            shape_head_statements(v),
        ) == Ok::<ShapesParserView, ParseErrorView>(
            ShapesParserView {
                shapes: spec_shapes_flushed(state),
                open: Some(ShapeParserView { open: None, shape: shape_head(v) }),
                insert: None,
            },
        ),
{
    let step = |s: ShapesParserView, kp: KeywordParamView| spec_shapes_step(s, kp);
    let shapes = spec_shapes_flushed(state);
    lemma_keyword(Keyword::Shape);
    lemma_keyword(Keyword::Insert);
    lemma_keyword(Keyword::Height);
    lemma_whole_string(v.name);
    let d0 = ShapeView { elements: Seq::empty(), insert: None, height: None, ..shape_head(v) };
    let st0 = ShapesParserView {
        shapes,
        open: Some(ShapeParserView { open: None, shape: d0 }),
        insert: None,
    };
    let head = KeywordParamView { keyword: "SHAPE"@, parameter: string_text(v.name) };
    assert(spec_shape_new(head.parameter, None) == Ok::<ShapeView, ParseErrorView>(d0));
    lemma_run_one(step, state, head);
    let a0 = seq![head];
    assert(run(step, state, a0) == Ok::<ShapesParserView, ParseErrorView>(st0));
    let put0 = |s: ShapesParserView, list: Seq<ShapeElementView>|
        ShapesParserView {
            open: Some(ShapeParserView { open: None, shape: ShapeView { elements: list, ..d0 } }),
            ..s
        };
    let line0 = |e: ShapeElementView| shape_element_statement(e);
    assert forall|list: Seq<ShapeElementView>, j: int|
        0 <= j < v.elements.len() implies #[trigger] step(put0(st0, list), line0(v.elements[j]))
        == Ok::<ShapesParserView, ParseErrorView>(put0(st0, list.push(v.elements[j]))) by {
        lemma_whole_shape_element(v.elements[j]);
    }
    lemma_run_each(step, put0, st0, Seq::empty(), v.elements, line0);
    assert(put0(st0, Seq::empty()) == st0);
    assert(Seq::<ShapeElementView>::empty() + v.elements =~= v.elements);
    let e = v.elements.map_values(line0);
    lemma_run_concat(step, state, a0, e);
    let d1 = ShapeView { elements: v.elements, ..d0 };
    let st1 = ShapesParserView { open: Some(ShapeParserView { open: None, shape: d1 }), ..st0 };
    assert(put0(st0, v.elements) == st1);
    let d2 = ShapeView { insert: v.insert, ..d1 };
    let st2 = ShapesParserView { open: Some(ShapeParserView { open: None, shape: d2 }), ..st0 };
    if let Some(i) = v.insert {
        lemma_whole_insert(i);
        let kp = KeywordParamView { keyword: "INSERT"@, parameter: insert_name(i) };
        assert(spec_subshape_new(kp) is None);
        assert(spec_outline(kp) is None);
        assert(spec_shape_element(kp) is None);
    }
    lemma_run_opt(step, st1, "INSERT"@, opt_insert_name(v.insert), st2);
    lemma_run_concat(step, state, a0 + e, opt_statement("INSERT"@, opt_insert_name(v.insert)));
    let d3 = ShapeView { height: v.height, ..d2 };
    let st3 = ShapesParserView { open: Some(ShapeParserView { open: None, shape: d3 }), ..st0 };
    if let Some(h) = v.height {
        lemma_whole_number(h);
        let kp = KeywordParamView { keyword: "HEIGHT"@, parameter: h };
        assert(spec_subshape_new(kp) is None);
        assert(spec_outline(kp) is None);
        assert(spec_shape_element(kp) is None);
    }
    lemma_run_opt(step, st2, "HEIGHT"@, v.height, st3);
    lemma_run_concat(
        step,
        state,
        a0 + e + opt_statement("INSERT"@, opt_insert_name(v.insert)),
        opt_statement("HEIGHT"@, v.height),
    );
    assert(a0 + e + opt_statement("INSERT"@, opt_insert_name(v.insert)) + opt_statement(
        "HEIGHT"@,
        v.height,
    ) =~= shape_head_statements(v));
    assert(d3 == shape_head(v));
}

/// The statements of a sub-record of a shape close the sub-record that is
/// open and leave the sub-record open, as it is.
proof fn lemma_subshape_run(state: ShapesParserView, v: SubShapeView)
    requires
        subshape_ok(v),
        state.open is Some,
    ensures
        run(
            |s: ShapesParserView, kp: KeywordParamView| spec_shapes_step(s, kp),
            state,
            subshape_statements(v),
        ) == Ok::<ShapesParserView, ParseErrorView>(
            ShapesParserView {
                open: Some(
                    ShapeParserView { open: Some(v), shape: spec_shape_done(state.open->0) },
                ),
                ..state
            },
        ),
{
    let step = |s: ShapesParserView, kp: KeywordParamView| spec_shapes_step(s, kp);
    let shape = spec_shape_done(state.open->0);
    lemma_whole_subshape_opener(v);
    lemma_keyword(Keyword::Attribute);
    let opener = subshape_opener(v);
    let v0 = subshape_with_attributes(v, Seq::empty());
    let st0 = ShapesParserView { open: Some(ShapeParserView { open: Some(v0), shape }), ..state };
    lemma_run_one(step, state, opener);
    let a0 = seq![opener];
    assert(run(step, state, a0) == Ok::<ShapesParserView, ParseErrorView>(st0));
    let put1 = |s: ShapesParserView, list: Seq<AttributeView>|
        ShapesParserView {
            open: Some(ShapeParserView { open: Some(subshape_with_attributes(v, list)), shape }),
            ..s
        };
    let line1 = |a: AttributeView| attribute_statement(a);
    let attrs = subshape_attributes(v);
    assert forall|list: Seq<AttributeView>, j: int| 0 <= j < attrs.len() implies #[trigger] step(
        put1(st0, list),
        line1(attrs[j]),
    ) == Ok::<ShapesParserView, ParseErrorView>(put1(st0, list.push(attrs[j]))) by {
        lemma_whole_attribute(attrs[j]);
    }
    lemma_run_each(step, put1, st0, Seq::empty(), attrs, line1);
    assert(put1(st0, Seq::empty()) == st0);
    assert(Seq::<AttributeView>::empty() + attrs =~= attrs);
    let attributes = attrs.map_values(line1);
    lemma_run_concat(step, state, a0, attributes);
    assert(a0 + attributes =~= subshape_statements(v));
    assert(subshape_with_attributes(v, attrs) == v);
}

/// The state of the builder of the section behind the statements of the
/// sub-records `v` of the open shape, in which no sub-record was open.
pub open spec fn subshapes_state(state: ShapesParserView, v: Seq<SubShapeView>) -> ShapesParserView {
    if v.len() == 0 {
        state
    } else {
        let shape = state.open->0.shape;
        ShapesParserView {
            open: Some(
                ShapeParserView {
                    open: Some(v.last()),
                    shape: ShapeView { subshapes: shape.subshapes + v.drop_last(), ..shape },
                },
            ),
            ..state
        }
    }
}

/// The statements of sub-records of a shape, one behind the other, are read
/// as the sub-records.
proof fn lemma_subshapes_run(state: ShapesParserView, v: Seq<SubShapeView>)
    requires
        state.open matches Some(p) && p.open is None,
        forall|i: int| 0 <= i < v.len() ==> subshape_ok(#[trigger] v[i]),
    ensures
        run(
            |s: ShapesParserView, kp: KeywordParamView| spec_shapes_step(s, kp),
            state,
            subshapes_statements(v),
        ) == Ok::<ShapesParserView, ParseErrorView>(subshapes_state(state, v)),
    decreases v.len(),
{
    let step = |s: ShapesParserView, kp: KeywordParamView| spec_shapes_step(s, kp);
    let lists = v.map_values(|s: SubShapeView| subshape_statements(s));
    let shape = state.open->0.shape;
    if v.len() == 0 {
        assert(concat_all(lists) =~= Seq::<KeywordParamView>::empty());
    } else {
        let first = v.drop_last();
        assert forall|i: int| 0 <= i < first.len() implies subshape_ok(#[trigger] first[i]) by {
            assert(first[i] == v[i]);
        }
        lemma_subshapes_run(state, first);
        assert(lists.drop_last() =~= first.map_values(|s: SubShapeView| subshape_statements(s)));
        assert(lists.last() == subshape_statements(v.last()));
        assert(subshape_ok(v[v.len() - 1]));
        let before = subshapes_state(state, first);
        lemma_subshape_run(before, v.last());
        lemma_run_concat(step, state, concat_all(lists.drop_last()), subshape_statements(v.last()));
        if first.len() == 0 {
            assert(shape.subshapes + v.drop_last() =~= shape.subshapes);
        } else {
            assert((shape.subshapes + first.drop_last()).push(first.last()) =~= shape.subshapes
                + v.drop_last());
        }
    }
}

/// The statements of a shape close the shape that is open and leave the
/// shape open: the builder of the shape holds the shape, with its last
/// sub-record open.
proof fn lemma_shape_run(state: ShapesParserView, v: ShapeView)
    requires
        shape_ok(v),
        state.insert is None,
    ensures
        run(
            |s: ShapesParserView, kp: KeywordParamView| spec_shapes_step(s, kp),
            state,
            shape_statements(v),
        ) == Ok::<ShapesParserView, ParseErrorView>(
            ShapesParserView {
                shapes: spec_shapes_flushed(state),
                open: Some(shape_state(v)),
                insert: None,
            },
        ),
        spec_shape_done(shape_state(v)) == v,
{
    let step = |s: ShapesParserView, kp: KeywordParamView| spec_shapes_step(s, kp);
    lemma_keyword(Keyword::Attribute);
    lemma_shape_head_run(state, v);
    let st0 = ShapesParserView {
        shapes: spec_shapes_flushed(state),
        open: Some(ShapeParserView { open: None, shape: shape_head(v) }),
        insert: None,
    };
    let attributes = v.attributes.map_values(|a: AttributeView| attribute_statement(a));
    let put1 = |s: ShapesParserView, list: Seq<AttributeView>|
        ShapesParserView {
            open: Some(
                ShapeParserView {
                    open: None,
                    shape: ShapeView { attributes: list, ..shape_head(v) },
                },
            ),
            ..s
        };
    let line1 = |a: AttributeView| attribute_statement(a);
    assert forall|list: Seq<AttributeView>, j: int|
        0 <= j < v.attributes.len() implies #[trigger] step(
        put1(st0, list),
        line1(v.attributes[j]),
    ) == Ok::<ShapesParserView, ParseErrorView>(put1(st0, list.push(v.attributes[j]))) by {
        lemma_whole_attribute(v.attributes[j]);
    }
    lemma_run_each(step, put1, st0, Seq::empty(), v.attributes, line1);
    assert(put1(st0, Seq::empty()) == st0);
    assert(Seq::<AttributeView>::empty() + v.attributes =~= v.attributes);
    let st1 = put1(st0, v.attributes);
    lemma_run_concat(step, state, shape_head_statements(v), attributes);
    lemma_subshapes_run(st1, v.subshapes);
    lemma_run_concat(
        step,
        state,
        shape_head_statements(v) + attributes,
        subshapes_statements(v.subshapes),
    );
    let own = ShapeView { subshapes: Seq::empty(), ..v };
    assert(st1.open->0.shape == own);
    if v.subshapes.len() == 0 {
        assert(v.subshapes =~= Seq::<SubShapeView>::empty());
    } else {
        assert(Seq::<SubShapeView>::empty() + v.subshapes.drop_last() =~= v.subshapes.drop_last());
        assert(v.subshapes.drop_last().push(v.subshapes.last()) =~= v.subshapes);
    }
    assert(subshapes_state(st1, v.subshapes) == ShapesParserView {
        open: Some(shape_state(v)),
        ..st0
    });
}

/// Whether each of the shapes `v` can be written and read back.
pub open spec fn shapes_ok(v: Seq<ShapeView>) -> bool {
    forall|i: int| 0 <= i < v.len() ==> shape_ok(#[trigger] v[i])
}

/// The state of the builder behind the statements of the shapes `v`.
pub open spec fn shapes_state(v: Seq<ShapeView>) -> ShapesParserView {
    if v.len() == 0 {
        spec_shapes_init()
    } else {
        ShapesParserView { shapes: v.drop_last(), open: Some(shape_state(v.last())), insert: None }
    }
}

/// The statements of shapes, one shape behind the other, are read as the shapes.
proof fn lemma_shapes_run(v: Seq<ShapeView>)
    requires
        shapes_ok(v),
    ensures
        run(
            |s: ShapesParserView, kp: KeywordParamView| spec_shapes_step(s, kp),
            spec_shapes_init(),
            concat_all(v.map_values(|d: ShapeView| shape_statements(d))),
        ) == Ok::<ShapesParserView, ParseErrorView>(shapes_state(v)),
        spec_shapes_flushed(shapes_state(v)) == v,
    decreases v.len(),
{
    let step = |s: ShapesParserView, kp: KeywordParamView| spec_shapes_step(s, kp);
    let init = spec_shapes_init();
    let lists = v.map_values(|d: ShapeView| shape_statements(d));
    if v.len() == 0 {
        assert(concat_all(lists) =~= Seq::<KeywordParamView>::empty());
        assert(spec_shapes_flushed(shapes_state(v)) =~= v);
    } else {
        let first = v.drop_last();
        assert(shapes_ok(first)) by {
            assert forall|i: int| 0 <= i < first.len() implies shape_ok(#[trigger] first[i]) by {
                assert(first[i] == v[i]);
            }
        }
        lemma_shapes_run(first);
        assert(lists.drop_last() =~= first.map_values(|d: ShapeView| shape_statements(d)));
        assert(lists.last() == shape_statements(v.last()));
        assert(shape_ok(v[v.len() - 1]));
        let before = shapes_state(first);
        lemma_shape_run(before, v.last());
        lemma_run_concat(step, init, concat_all(lists.drop_last()), shape_statements(v.last()));
        assert(spec_shapes_flushed(before) == first);
        assert(first.push(v.last()) =~= v);
    }
}

/// The `SHAPES` section is read back from its text: the text of shapes that
/// can be written is split into the statements of a section named `SHAPES`,
/// and the builder makes the shapes of them.
pub proof fn lemma_shapes_round_trip(v: Seq<ShapeView>)
    requires
        shapes_ok(v),
    ensures
        section_round_trips(shapes_text(v), ParsedSectionView::Shapes(v)),
{
    reveal(spec_build_section);
    lemma_section_shapes();
    let texts = v.map_values(|d: ShapeView| shape_text(d));
    let lists = v.map_values(|d: ShapeView| shape_statements(d));
    let statements = concat_all(lists);
    lemma_shapes_run(v);
    lemma_join_wrapped("$SHAPES"@, texts, "$ENDSHAPES"@);
    let section = SectionView { name: "SHAPES"@, parameters: statements };
    if v.len() == 0 {
        assert(statements =~= Seq::<KeywordParamView>::empty());
        lemma_empty_section_written("SHAPES"@);
        assert(shapes_text(v) =~= "$"@ + "SHAPES"@ + crlf() + "$END"@ + "SHAPES"@);
    } else {
        assert forall|i: int| 0 <= i < texts.len() implies reads_as(
            #[trigger] texts[i],
            lists[i],
        ) by {
            assert(shape_ok(v[i]));
            lemma_shape_reads(v[i]);
        }
        lemma_reads_join_lines(texts, lists);
        lemma_section_written("SHAPES"@, join_lines(texts), statements);
        assert(shapes_text(v) =~= section_text("SHAPES"@, join_lines(texts)));
    }
    assert(spec_build_section(section) == Ok::<ParsedSectionView, ParseErrorView>(
        ParsedSectionView::Shapes(v),
    ));
}

} // verus!
