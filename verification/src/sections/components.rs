//! The `COMPONENTS` section.

use vstd::prelude::*;
use vstd::string::*;
use crate::error::{agrees, agrees_whole, Field, Parsed, ParseError, ParseErrorView, SectionKind};
use crate::lex::{lemma_one_line_concat, one_line};
use crate::parser::{KeywordParam, KeywordParamView, SectionView};
use crate::parser::file::{
    lemma_section_components, ParsedSectionView, section_round_trips, spec_build_section,
};
use crate::parser::keyword::{Keyword, lemma_keyword};
use crate::parser::written::{
    concat_all, lemma_empty_section_written, lemma_reads_concat, lemma_reads_each,
    lemma_reads_empty, lemma_reads_join_lines, lemma_reads_keyword_line, lemma_reads_more,
    lemma_reads_opt, lemma_section_written, opt_statement, reads_as, section_text,
};
use crate::sections::{
    attribute_statement, attributes_ok, first_wins, lemma_reads_attributes, lemma_run_concat,
    lemma_run_each, lemma_run_error, lemma_run_one, lemma_run_opt, lemma_run_push, lemma_run_step,
    lemma_whole_attribute, lemma_whole_number, lemma_whole_string, lemma_whole_x_y, run,
    unexpected, whole,
};
use crate::sections::board::text_parameter;
use crate::sections::devices::opt_string_text;
use crate::sections::header::missing;
use crate::serialization::{
    concat, crlf, extend_lines, join, join_lines, lemma_join_wrapped, opt_line, push_line,
    push_opt_line, render_all, render_opt, ToGencadString,
};
use crate::types::aliases::{artwork_name, component_name, fid_name, rot, shape_name};
use crate::types::attrib_ref::{
    attrib_ref, Attribute, attributes_text, AttributeView, lemma_sp_string_round_trip, sp_string,
    spec_attrib_ref, spec_sp_string,
};
use crate::types::booleans::{
    flag_text, flag_to_string, flip, lemma_flag_one_line, lemma_flip_round_trip, spec_flip,
};
use crate::types::layer::{
    layer, Layer, layer_text, lemma_layer_round_trip, lemma_layer_text_one_line, spec_layer,
};
use crate::types::mirror::{lemma_mirror_text_one_line, Mirror, mirror_text};
use crate::types::number::{is_number, lemma_number_one_line, Number, spec_number};
use crate::types::string::{
    is_writable, lemma_string_one_line, lemma_string_round_trip, part_name, spec_part_name,
    spec_string, string, string_text,
};
use crate::types::text_par::{
    lemma_sp_layer_round_trip, lemma_sp_mirror_round_trip, lemma_text_line_round_trip,
    lemma_text_par_one_line, sp_layer, sp_mirror, sp_text_par, spec_sp_layer, spec_sp_mirror,
    spec_text_line, text_line, text_ok, text_par_text, TextPar, TextView,
};
use crate::types::util::{ends_token, lemma_one_space, spaces, spec_spaces};
use crate::types::x_y_ref::{
    lemma_sp_number_round_trip, lemma_sp_x_y_round_trip, lemma_x_y_one_line, sp_number, sp_x_y_ref,
    spec_sp_number, spec_sp_x_y_ref, spec_x_y_ref, x_y_ok, x_y_ref, x_y_text, XYRef, XYRefView,
};

verus! {

/// The shape of a component: a reference to a shape of the `SHAPES` section.
#[derive(Debug, Clone, PartialEq, Eq)]
pub struct Shape {
    /// The name of the shape.
    pub name: String,
    /// The mirror state of the shape.
    pub mirror: Mirror,
    /// Whether the shape is flipped to the other side of the board.
    pub flip: bool,
}

/// The mathematical content of a [`Shape`] of a component.
pub ghost struct ShapeRefView {
    pub name: Seq<char>,
    pub mirror: Mirror,
    pub flip: bool,
}

impl DeepView for Shape {
    type V = ShapeRefView;

    open spec fn deep_view(&self) -> ShapeRefView {
        ShapeRefView { name: self.name@, mirror: self.mirror, flip: self.flip }
    }
}

/// An artwork placed relative to a component.
#[derive(Debug, Clone, PartialEq, Eq)]
pub struct Artwork {
    /// The name of the artwork.
    pub name: String,
    /// The position of the artwork relative to the component.
    pub xy: XYRef,
    /// The rotation of the artwork, in degrees counterclockwise.
    pub rotation: Number,
    /// The mirror state of the artwork.
    pub mirror: Mirror,
    /// Whether the artwork is flipped to the other side of the board.
    pub flip: bool,
    /// Additional metadata associated with the artwork.
    pub attributes: Vec<Attribute>,
}

/// The mathematical content of an [`Artwork`] of a component.
pub ghost struct ArtworkView {
    pub name: Seq<char>,
    pub xy: XYRefView,
    pub rotation: Seq<char>,
    pub mirror: Mirror,
    pub flip: bool,
    pub attributes: Seq<AttributeView>,
}

impl DeepView for Artwork {
    type V = ArtworkView;

    open spec fn deep_view(&self) -> ArtworkView {
        ArtworkView {
            name: self.name@,
            xy: self.xy.deep_view(),
            rotation: self.rotation.deep_view(),
            mirror: self.mirror,
            flip: self.flip,
            attributes: self.attributes.deep_view(),
        }
    }
}

/// A fiducial placed relative to a component.
#[derive(Debug, Clone, PartialEq, Eq)]
pub struct Fid {
    /// The name of the fiducial.
    pub name: String,
    /// The name of the pad or padstack used for the fiducial.
    pub pad_name: String,
    /// The position of the fiducial relative to the component.
    pub xy: XYRef,
    /// The layer on which the fiducial is placed.
    pub layer: Layer,
    /// The rotation of the fiducial, in degrees counterclockwise.
    pub rotation: Number,
    /// The mirror state of the fiducial.
    pub mirror: Mirror,
    /// Whether the fiducial is flipped to the other side of the board.
    pub flip: bool,
    /// Additional metadata associated with the fiducial.
    pub attributes: Vec<Attribute>,
}

/// The mathematical content of a [`Fid`] of a component.
pub ghost struct FidView {
    pub name: Seq<char>,
    pub pad_name: Seq<char>,
    pub xy: XYRefView,
    pub layer: Layer,
    pub rotation: Seq<char>,
    pub mirror: Mirror,
    pub flip: bool,
    pub attributes: Seq<AttributeView>,
}

impl DeepView for Fid {
    type V = FidView;

    open spec fn deep_view(&self) -> FidView {
        FidView {
            name: self.name@,
            pad_name: self.pad_name@,
            xy: self.xy.deep_view(),
            layer: self.layer,
            rotation: self.rotation.deep_view(),
            mirror: self.mirror,
            flip: self.flip,
            attributes: self.attributes.deep_view(),
        }
    }
}

/// A text attached to a component.
#[derive(Debug, Clone, PartialEq, Eq)]
pub struct Text {
    /// The bottom-left corner of the text relative to the component's origin.
    pub origin: XYRef,
    /// The size, rotation, mirror state, layer, content and area of the text.
    pub text: TextPar,
}

impl DeepView for Text {
    type V = TextView;

    open spec fn deep_view(&self) -> TextView {
        TextView { origin: self.origin.deep_view(), text: self.text.deep_view() }
    }
}

/// A sub-record of a component.
#[derive(Debug, Clone, PartialEq, Eq)]
pub enum SubComponent {
    Artwork(Artwork),
    Fid(Fid),
}

/// The mathematical content of a [`SubComponent`].
pub ghost enum SubComponentView {
    Artwork(ArtworkView),
    Fid(FidView),
}

impl DeepView for SubComponent {
    type V = SubComponentView;

    open spec fn deep_view(&self) -> SubComponentView {
        match self {
            SubComponent::Artwork(v) => SubComponentView::Artwork(v.deep_view()),
            SubComponent::Fid(v) => SubComponentView::Fid(v.deep_view()),
        }
    }
}

/// A component placed on the board.
#[derive(Debug, Clone, PartialEq, Eq)]
pub struct Component {
    /// The name of the component.
    pub name: String,
    /// The device of the component, as named in the `DEVICES` section.
    pub device: String,
    /// The position of the component on the board.
    pub place: XYRef,
    /// The layer on which the component is placed.
    pub layer: Layer,
    /// The rotation of the component, in degrees counterclockwise.
    pub rotation: Number,
    /// The shape of the component.
    pub shape: Shape,
    /// The artworks and fiducials placed relative to the component.
    pub subcomponents: Vec<SubComponent>,
    /// The texts attached to the component.
    pub texts: Vec<Text>,
    /// The sheet of the schematic that shows the component.
    pub sheet: Option<String>,
    /// Additional metadata associated with the component.
    pub attributes: Vec<Attribute>,
}

/// The mathematical content of a [`Component`].
pub ghost struct ComponentView {
    pub name: Seq<char>,
    pub device: Seq<char>,
    pub place: XYRefView,
    pub layer: Layer,
    pub rotation: Seq<char>,
    pub shape: ShapeRefView,
    pub subcomponents: Seq<SubComponentView>,
    pub texts: Seq<TextView>,
    pub sheet: Option<Seq<char>>,
    pub attributes: Seq<AttributeView>,
}

impl DeepView for Component {
    type V = ComponentView;

    open spec fn deep_view(&self) -> ComponentView {
        ComponentView {
            name: self.name@,
            device: self.device@,
            place: self.place.deep_view(),
            layer: self.layer,
            rotation: self.rotation.deep_view(),
            shape: self.shape.deep_view(),
            subcomponents: self.subcomponents.deep_view(),
            texts: self.texts.deep_view(),
            sheet: self.sheet.deep_view(),
            attributes: self.attributes.deep_view(),
        }
    }
}

/// A component under construction: the fields that a component cannot do
/// without may still be missing.
#[derive(Debug, Clone, PartialEq, Eq)]
pub struct ComponentPrototype {
    pub name: String,
    pub device: Option<String>,
    pub place: Option<XYRef>,
    pub layer: Option<Layer>,
    pub rotation: Option<Number>,
    pub shape: Option<Shape>,
    pub subcomponents: Vec<SubComponent>,
    pub texts: Vec<Text>,
    pub sheet: Option<String>,
    pub attributes: Vec<Attribute>,
}

/// The mathematical content of a [`ComponentPrototype`].
pub ghost struct ComponentPrototypeView {
    pub name: Seq<char>,
    pub device: Option<Seq<char>>,
    pub place: Option<XYRefView>,
    pub layer: Option<Layer>,
    pub rotation: Option<Seq<char>>,
    pub shape: Option<ShapeRefView>,
    pub subcomponents: Seq<SubComponentView>,
    pub texts: Seq<TextView>,
    pub sheet: Option<Seq<char>>,
    pub attributes: Seq<AttributeView>,
}

impl DeepView for ComponentPrototype {
    type V = ComponentPrototypeView;

    open spec fn deep_view(&self) -> ComponentPrototypeView {
        ComponentPrototypeView {
            name: self.name@,
            device: self.device.deep_view(),
            place: self.place.deep_view(),
            layer: self.layer,
            rotation: self.rotation.deep_view(),
            shape: self.shape.deep_view(),
            subcomponents: self.subcomponents.deep_view(),
            texts: self.texts.deep_view(),
            sheet: self.sheet.deep_view(),
            attributes: self.attributes.deep_view(),
        }
    }
}

/// The flip flag behind spaces at the head of `s`.
pub open spec fn spec_sp_flip(s: Seq<char>) -> Parsed<bool> {
    match spec_spaces(s) {
        Err(e) => Err(e),
        Ok((s1, _)) => spec_flip(s1),
    }
}

/// The shape that a `SHAPE` line of a component describes.
pub open spec fn spec_shape_ref(params: Seq<char>) -> Result<ShapeRefView, ParseErrorView> {
    match spec_string(params) {
        Err(e) => Err(e),
        Ok((s1, name)) => match spec_sp_mirror(s1) {
            Err(e) => Err(e),
            Ok((s2, mirror)) => match spec_sp_flip(s2) {
                Err(e) => Err(e),
                Ok((_, flip)) => Ok(ShapeRefView { name, mirror, flip }),
            },
        },
    }
}

/// The artwork that an `ARTWORK` line of a component describes.
#[verifier::opaque]
pub open spec fn spec_component_artwork(params: Seq<char>) -> Result<
    ArtworkView,
    ParseErrorView,
> {
    match spec_string(params) {
        Err(e) => Err(e),
        Ok((s1, name)) => match spec_sp_x_y_ref(s1) {
            Err(e) => Err(e),
            Ok((s2, xy)) => match spec_sp_number(s2) {
                Err(e) => Err(e),
                Ok((s3, rotation)) => match spec_sp_mirror(s3) {
                    Err(e) => Err(e),
                    Ok((s4, mirror)) => match spec_sp_flip(s4) {
                        Err(e) => Err(e),
                        Ok((_, flip)) => Ok(
                            ArtworkView {
                                name,
                                xy,
                                rotation,
                                mirror,
                                flip,
                                attributes: Seq::empty(),
                            },
                        ),
                    },
                },
            },
        },
    }
}

/// The fiducial that a `FID` line of a component describes.
#[verifier::opaque]
pub open spec fn spec_component_fid(params: Seq<char>) -> Result<FidView, ParseErrorView> {
    match spec_string(params) {
        Err(e) => Err(e),
        Ok((s1, name)) => match spec_sp_string(s1) {
            Err(e) => Err(e),
            Ok((s2, pad_name)) => match spec_sp_x_y_ref(s2) {
                Err(e) => Err(e),
                Ok((s3, xy)) => match spec_sp_layer(s3) {
                    Err(e) => Err(e),
                    Ok((s4, layer)) => match spec_sp_number(s4) {
                        Err(e) => Err(e),
                        Ok((s5, rotation)) => match spec_sp_mirror(s5) {
                            Err(e) => Err(e),
                            Ok((s6, mirror)) => match spec_sp_flip(s6) {
                                Err(e) => Err(e),
                                Ok((_, flip)) => Ok(
                                    FidView {
                                        name,
                                        pad_name,
                                        xy,
                                        layer,
                                        rotation,
                                        mirror,
                                        flip,
                                        attributes: Seq::empty(),
                                    },
                                ),
                            },
                        },
                    },
                },
            },
        },
    }
}

/// The sub-record that a line with one of the keywords `ARTWORK` and `FID`
/// opens; `None` for any other keyword.
pub open spec fn spec_subcomponent_new(kp: KeywordParamView) -> Option<
    Result<SubComponentView, ParseErrorView>,
> {
    match Keyword::spec_of(kp.keyword) {
        Keyword::Artwork => Some(
            match spec_component_artwork(kp.parameter) {
                Ok(v) => Ok(SubComponentView::Artwork(v)),
                Err(e) => Err(e),
            },
        ),
        Keyword::Fid => Some(
            match spec_component_fid(kp.parameter) {
                Ok(v) => Ok(SubComponentView::Fid(v)),
                Err(e) => Err(e),
            },
        ),
        _ => None,
    }
}

/// The sub-record `sub` with the attribute `a` added.
pub open spec fn spec_subcomponent_with(sub: SubComponentView, a: AttributeView) -> SubComponentView {
    match sub {
        SubComponentView::Artwork(v) => SubComponentView::Artwork(
            ArtworkView { attributes: v.attributes.push(a), ..v },
        ),
        SubComponentView::Fid(v) => SubComponentView::Fid(
            FidView { attributes: v.attributes.push(a), ..v },
        ),
    }
}

/// The component that a `COMPONENT` line opens: it has its name and nothing else.
pub open spec fn spec_component_new(params: Seq<char>) -> Result<
    ComponentPrototypeView,
    ParseErrorView,
> {
    match spec_string(params) {
        Err(e) => Err(e),
        Ok((_, name)) => Ok(
            ComponentPrototypeView {
                name,
                device: None,
                place: None,
                layer: None,
                rotation: None,
                shape: None,
                subcomponents: Seq::empty(),
                texts: Seq::empty(),
                sheet: None,
                attributes: Seq::empty(),
            },
        ),
    }
}

/// The first of the fields a component cannot do without, in the order
/// device, place, layer, rotation, shape, that `p` lacks.
pub open spec fn spec_component_lacks(p: ComponentPrototypeView) -> Option<Field> {
    if p.device is None {
        Some(Field::Device)
    } else if p.place is None {
        Some(Field::Place)
    } else if p.layer is None {
        Some(Field::Layer)
    } else if p.rotation is None {
        Some(Field::Rotation)
    } else if p.shape is None {
        Some(Field::Shape)
    } else {
        None
    }
}

/// The component that `p` has become, or the error that names the first
/// field it lacks.
pub open spec fn spec_to_component(p: ComponentPrototypeView) -> Result<
    ComponentView,
    ParseErrorView,
> {
    match spec_component_lacks(p) {
        Some(field) => Err(
            ParseErrorView::MissingField { section: SectionKind::Components, field },
        ),
        None => Ok(
            ComponentView {
                name: p.name,
                device: p.device->0,
                place: p.place->0,
                layer: p.layer->0,
                rotation: p.rotation->0,
                shape: p.shape->0,
                subcomponents: p.subcomponents,
                texts: p.texts,
                sheet: p.sheet,
                attributes: p.attributes,
            },
        ),
    }
}

/// The state of the builder of one component: the component as far as it is
/// built, and its sub-record that is open.
pub ghost struct ComponentParserView {
    pub open: Option<SubComponentView>,
    pub prototype: ComponentPrototypeView,
}

/// The component of `p` with the open sub-record closed.
pub open spec fn spec_component_done(p: ComponentParserView) -> ComponentPrototypeView {
    match p.open {
        Some(sub) => ComponentPrototypeView {
            subcomponents: p.prototype.subcomponents.push(sub),
            ..p.prototype
        },
        None => p.prototype,
    }
}

/// The component `c` after a line for one of its own fields; `None` for a
/// line with another keyword.
pub open spec fn spec_component_field(c: ComponentPrototypeView, kp: KeywordParamView) -> Option<
    Result<ComponentPrototypeView, ParseErrorView>,
> {
    let p = kp.parameter;
    match Keyword::spec_of(kp.keyword) {
        Keyword::Device => Some(
            match first_wins(c.device, whole(spec_part_name(p))) {
                Ok(device) => Ok(ComponentPrototypeView { device, ..c }),
                Err(e) => Err(e),
            },
        ),
        Keyword::Place => Some(
            match first_wins(c.place, whole(spec_x_y_ref(p))) {
                Ok(place) => Ok(ComponentPrototypeView { place, ..c }),
                Err(e) => Err(e),
            },
        ),
        Keyword::Layer => Some(
            match first_wins(c.layer, whole(spec_layer(p))) {
                Ok(layer) => Ok(ComponentPrototypeView { layer, ..c }),
                Err(e) => Err(e),
            },
        ),
        Keyword::Rotation => Some(
            match first_wins(c.rotation, whole(spec_number(p))) {
                Ok(rotation) => Ok(ComponentPrototypeView { rotation, ..c }),
                Err(e) => Err(e),
            },
        ),
        Keyword::Shape => Some(
            match first_wins(c.shape, spec_shape_ref(p)) {
                Ok(shape) => Ok(ComponentPrototypeView { shape, ..c }),
                Err(e) => Err(e),
            },
        ),
        Keyword::Text => Some(
            match spec_text_line(p) {
                Ok(text) => Ok(ComponentPrototypeView { texts: c.texts.push(text), ..c }),
                Err(e) => Err(e),
            },
        ),
        Keyword::Sheet => Some(
            match first_wins(c.sheet, whole(spec_string(p))) {
                Ok(sheet) => Ok(ComponentPrototypeView { sheet, ..c }),
                Err(e) => Err(e),
            },
        ),
        _ => None,
    }
}

/// The builder `p` of a component after the line `kp`. An attribute goes to
/// the open sub-record, or to the component where none is open. A line that
/// opens a sub-record closes the open one. A line for the component itself
/// closes the open sub-record as well, and is then applied to the component.
pub open spec fn spec_component_step(p: ComponentParserView, kp: KeywordParamView) -> Result<
    ComponentParserView,
    ParseErrorView,
> {
    let closed = spec_component_done(p);
    if Keyword::spec_of(kp.keyword) == Keyword::Attribute {
        match whole(spec_attrib_ref(kp.parameter)) {
            Err(e) => Err(e),
            Ok(a) => match p.open {
                Some(sub) => Ok(
                    ComponentParserView { open: Some(spec_subcomponent_with(sub, a)), ..p },
                ),
                None => Ok(
                    ComponentParserView {
                        prototype: ComponentPrototypeView {
                            attributes: p.prototype.attributes.push(a),
                            ..p.prototype
                        },
                        ..p
                    },
                ),
            },
        }
    } else if let Some(sub) = spec_subcomponent_new(kp) {
        match sub {
            Err(e) => Err(e),
            Ok(sub) => Ok(ComponentParserView { open: Some(sub), prototype: closed }),
        }
    } else if let Some(next) = spec_component_field(closed, kp) {
        match next {
            Err(e) => Err(e),
            Ok(prototype) => Ok(ComponentParserView { open: None, prototype }),
        }
    } else {
        Err(
            ParseErrorView::UnexpectedKeyword {
                section: SectionKind::Components,
                keyword: kp.keyword,
            },
        )
    }
}

/// The state of the builder of the section: the components that are
/// complete, and the builder of the one that is open.
pub ghost struct ComponentsParserView {
    pub components: Seq<ComponentView>,
    pub open: Option<ComponentParserView>,
}

/// The builder before the first line.
pub open spec fn spec_components_init() -> ComponentsParserView {
    ComponentsParserView { components: Seq::empty(), open: None }
}

/// The components of `state` with the open one closed, or the error of a
/// field that the open one lacks.
pub open spec fn spec_components_flushed(state: ComponentsParserView) -> Result<
    Seq<ComponentView>,
    ParseErrorView,
> {
    match state.open {
        Some(p) => match spec_to_component(spec_component_done(p)) {
            Ok(c) => Ok(state.components.push(c)),
            Err(e) => Err(e),
        },
        None => Ok(state.components),
    }
}

/// The state of the builder after the line `kp`. `COMPONENT` closes the open
/// component, which must be complete, and opens the next. Any other line goes
/// to the open component.
pub open spec fn spec_components_step(state: ComponentsParserView, kp: KeywordParamView) -> Result<
    ComponentsParserView,
    ParseErrorView,
> {
    if Keyword::spec_of(kp.keyword) == Keyword::Component {
        match spec_components_flushed(state) {
            Err(e) => Err(e),
            Ok(components) => match spec_component_new(kp.parameter) {
                Err(e) => Err(e),
                Ok(prototype) => Ok(
                    ComponentsParserView {
                        components,
                        open: Some(ComponentParserView { open: None, prototype }),
                    },
                ),
            },
        }
    } else {
        match state.open {
            Some(p) => match spec_component_step(p, kp) {
                Err(e) => Err(e),
                Ok(p) => Ok(ComponentsParserView { open: Some(p), ..state }),
            },
            None => Err(
                ParseErrorView::UnexpectedKeyword {
                    section: SectionKind::Components,
                    keyword: kp.keyword,
                },
            ),
        }
    }
}

/// The components that the lines of a `COMPONENTS` section describe.
pub open spec fn spec_parse_components(lines: Seq<KeywordParamView>) -> Result<
    Seq<ComponentView>,
    ParseErrorView,
> {
    match run(
        |s: ComponentsParserView, kp: KeywordParamView| spec_components_step(s, kp),
        spec_components_init(),
        lines,
    ) {
        Ok(state) => spec_components_flushed(state),
        Err(e) => Err(e),
    }
}

/// An attribute belongs to what is open: to the open sub-record, which it
/// leaves open, and else to the component. Nothing else changes.
pub proof fn lemma_component_attribute_scope(p: ComponentParserView, kp: KeywordParamView)
    requires
        Keyword::spec_of(kp.keyword) == Keyword::Attribute,
        spec_attrib_ref(kp.parameter) is Ok,
    ensures
        ({
            let a = spec_attrib_ref(kp.parameter)->Ok_0.1;
            spec_component_step(p, kp) == Ok::<ComponentParserView, ParseErrorView>(
                match p.open {
                    Some(sub) => ComponentParserView {
                        open: Some(spec_subcomponent_with(sub, a)),
                        prototype: p.prototype,
                    },
                    None => ComponentParserView {
                        open: None,
                        prototype: ComponentPrototypeView {
                            attributes: p.prototype.attributes.push(a),
                            ..p.prototype
                        },
                    },
                },
            )
        }),
{
}

/// Whether the field of `c` that the keyword `k` gives can be given once,
/// and is set.
pub open spec fn component_field_set(c: ComponentPrototypeView, k: Keyword) -> bool {
    match k {
        Keyword::Device => c.device is Some,
        Keyword::Place => c.place is Some,
        Keyword::Layer => c.layer is Some,
        Keyword::Rotation => c.rotation is Some,
        Keyword::Shape => c.shape is Some,
        Keyword::Sheet => c.sheet is Some,
        _ => false,
    }
}

/// The first value of a field of a component that can be given once is kept:
/// a further line for a field that is set changes no field of the component,
/// whatever the line holds, and is no error. It still closes the open
/// sub-record.
pub proof fn lemma_component_first_wins(p: ComponentParserView, kp: KeywordParamView)
    requires
        component_field_set(spec_component_done(p), Keyword::spec_of(kp.keyword)),
    ensures
        spec_component_step(p, kp) == Ok::<ComponentParserView, ParseErrorView>(
            ComponentParserView { open: None, prototype: spec_component_done(p) },
        ),
{
}

/// A component that is closed without one of the fields it cannot do without
/// is an error that names the first such field, in the order device, place,
/// layer, rotation, shape.
pub proof fn lemma_component_missing_field(c: ComponentPrototypeView)
    ensures
        match spec_component_lacks(c) {
            Some(field) => spec_to_component(c) == Err::<ComponentView, ParseErrorView>(
                ParseErrorView::MissingField { section: SectionKind::Components, field },
            ),
            None => spec_to_component(c) is Ok,
        },
{
}

/// Parses the flip flag behind spaces at the head of `s`.
pub fn sp_flip(s: &str) -> (r: Result<(&str, bool), ParseError>)
    ensures
        agrees(r, spec_sp_flip(s@)),
{
    let (s1, _) = spaces(s)?;
    flip(s1)
}

impl Shape {
    /// Decodes the parameter of a `SHAPE` line of a component.
    pub fn from_parameters(params: &str) -> (r: Result<Shape, ParseError>)
        ensures
            agrees_whole(r, spec_shape_ref(params@)),
    {
        let (s1, name) = shape_name(params)?;
        let (s2, mirror) = sp_mirror(s1)?;
        let (_, flip) = sp_flip(s2)?;
        Ok(Shape { name, mirror, flip })
    }
}

impl Artwork {
    /// Decodes the parameter of an `ARTWORK` line of a component.
    pub fn from_parameters(params: &str) -> (r: Result<Artwork, ParseError>)
        ensures
            agrees_whole(r, spec_component_artwork(params@)),
    {
        reveal(spec_component_artwork);
        let (s1, name) = artwork_name(params)?;
        let (s2, xy) = sp_x_y_ref(s1)?;
        let (s3, rotation) = sp_number(s2)?;
        let (s4, mirror) = sp_mirror(s3)?;
        let (_, flip) = sp_flip(s4)?;
        let r = Artwork { name, xy, rotation, mirror, flip, attributes: Vec::new() };
        assert(r.attributes.deep_view() =~= Seq::empty());
        Ok(r)
    }
}

impl Fid {
    /// Decodes the parameter of a `FID` line of a component.
    pub fn from_parameters(params: &str) -> (r: Result<Fid, ParseError>)
        ensures
            agrees_whole(r, spec_component_fid(params@)),
    {
        reveal(spec_component_fid);
        let (s1, name) = fid_name(params)?;
        let (s2, pad_name) = sp_string(s1)?;
        let (s3, xy) = sp_x_y_ref(s2)?;
        let (s4, layer) = sp_layer(s3)?;
        let (s5, rotation) = sp_number(s4)?;
        let (s6, mirror) = sp_mirror(s5)?;
        let (_, flip) = sp_flip(s6)?;
        let r = Fid { name, pad_name, xy, layer, rotation, mirror, flip, attributes: Vec::new() };
        assert(r.attributes.deep_view() =~= Seq::empty());
        Ok(r)
    }
}

impl Text {
    /// Decodes the parameter of a `TEXT` line.
    pub fn from_parameters(params: &str) -> (r: Result<Text, ParseError>)
        ensures
            agrees_whole(r, spec_text_line(params@)),
    {
        let (s1, origin) = x_y_ref(params)?;
        let (_, text) = sp_text_par(s1)?;
        Ok(Text { origin, text })
    }
}

impl SubComponent {
    /// Decodes a line that opens a sub-record; `None` for a line with another
    /// keyword.
    pub fn from_line(kp: &KeywordParam) -> (r: Option<Result<SubComponent, ParseError>>)
        ensures
            match r {
                Some(sub) => spec_subcomponent_new(kp.deep_view()) matches Some(m)
                    && agrees_whole(sub, m),
                None => spec_subcomponent_new(kp.deep_view()) is None,
            },
    {
        match Keyword::of(kp.keyword) {
            Keyword::Artwork => Some(
                match Artwork::from_parameters(kp.parameter) {
                    Ok(v) => Ok(SubComponent::Artwork(v)),
                    Err(e) => Err(e),
                },
            ),
            Keyword::Fid => Some(
                match Fid::from_parameters(kp.parameter) {
                    Ok(v) => Ok(SubComponent::Fid(v)),
                    Err(e) => Err(e),
                },
            ),
            _ => None,
        }
    }

    /// The sub-record with the attribute `a` added.
    pub fn with_attribute(self, a: Attribute) -> (r: SubComponent)
        ensures
            r.deep_view() == spec_subcomponent_with(self.deep_view(), a.deep_view()),
    {
        match self {
            SubComponent::Artwork(mut v) => {
                let ghost before = v.attributes.deep_view();
                v.attributes.push(a);
                assert(v.attributes.deep_view() =~= before.push(a.deep_view()));
                SubComponent::Artwork(v)
            },
            SubComponent::Fid(mut v) => {
                let ghost before = v.attributes.deep_view();
                v.attributes.push(a);
                assert(v.attributes.deep_view() =~= before.push(a.deep_view()));
                SubComponent::Fid(v)
            },
        }
    }
}

impl ComponentPrototype {
    /// Opens the component that the parameter of a `COMPONENT` line names.
    pub fn from_parameters(params: &str) -> (r: Result<ComponentPrototype, ParseError>)
        ensures
            agrees_whole(r, spec_component_new(params@)),
    {
        let (_, name) = component_name(params)?;
        let r = ComponentPrototype {
            name,
            device: None,
            place: None,
            layer: None,
            rotation: None,
            shape: None,
            subcomponents: Vec::new(),
            texts: Vec::new(),
            sheet: None,
            attributes: Vec::new(),
        };
        assert(r.subcomponents.deep_view() =~= Seq::empty());
        assert(r.texts.deep_view() =~= Seq::empty());
        assert(r.attributes.deep_view() =~= Seq::empty());
        Ok(r)
    }

    /// The first required field that the component lacks.
    pub fn lacks(&self) -> (r: Option<Field>)
        ensures
            r == spec_component_lacks(self.deep_view()),
    {
        if self.device.is_none() {
            Some(Field::Device)
        } else if self.place.is_none() {
            Some(Field::Place)
        } else if self.layer.is_none() {
            Some(Field::Layer)
        } else if self.rotation.is_none() {
            Some(Field::Rotation)
        } else if self.shape.is_none() {
            Some(Field::Shape)
        } else {
            None
        }
    }

    /// Completes the component, or names the first required field it lacks.
    pub fn to_component(self) -> (r: Result<Component, ParseError>)
        ensures
            agrees_whole(r, spec_to_component(self.deep_view())),
    {
        let device = match self.device {
            Some(v) => v,
            None => {
                return Err(missing(SectionKind::Components, Field::Device));
            },
        };
        let place = match self.place {
            Some(v) => v,
            None => {
                return Err(missing(SectionKind::Components, Field::Place));
            },
        };
        let layer = match self.layer {
            Some(v) => v,
            None => {
                return Err(missing(SectionKind::Components, Field::Layer));
            },
        };
        let rotation = match self.rotation {
            Some(v) => v,
            None => {
                return Err(missing(SectionKind::Components, Field::Rotation));
            },
        };
        let shape = match self.shape {
            Some(v) => v,
            None => {
                return Err(missing(SectionKind::Components, Field::Shape));
            },
        };
        Ok(
            Component {
                name: self.name,
                device,
                place,
                layer,
                rotation,
                shape,
                subcomponents: self.subcomponents,
                texts: self.texts,
                sheet: self.sheet,
                attributes: self.attributes,
            },
        )
    }

    /// Applies a line for one of the component's own fields; `None` for a
    /// line with another keyword. On an error the component is as before.
    pub fn update(&mut self, kp: &KeywordParam) -> (r: Option<Result<(), ParseError>>)
        ensures
            match r {
                Some(Ok(_)) => spec_component_field(old(self).deep_view(), kp.deep_view())
                    == Some(
                    Ok::<ComponentPrototypeView, ParseErrorView>(final(self).deep_view()),
                ),
                Some(Err(e)) => spec_component_field(old(self).deep_view(), kp.deep_view())
                    == Some(Err::<ComponentPrototypeView, ParseErrorView>(e.deep_view()))
                    && *final(self) == *old(self),
                None => spec_component_field(old(self).deep_view(), kp.deep_view()) is None
                    && *final(self) == *old(self),
            },
    {
        match Keyword::of(kp.keyword) {
            Keyword::Device => {
                if self.device.is_none() {
                    match part_name(kp.parameter) {
                        Ok((_, v)) => {
                            self.device = Some(v);
                        },
                        Err(e) => {
                            return Some(Err(e));
                        },
                    }
                }
                Some(Ok(()))
            },
            Keyword::Place => {
                if self.place.is_none() {
                    match x_y_ref(kp.parameter) {
                        Ok((_, v)) => {
                            self.place = Some(v);
                        },
                        Err(e) => {
                            return Some(Err(e));
                        },
                    }
                }
                Some(Ok(()))
            },
            Keyword::Layer => {
                if self.layer.is_none() {
                    match layer(kp.parameter) {
                        Ok((_, v)) => {
                            self.layer = Some(v);
                        },
                        Err(e) => {
                            return Some(Err(e));
                        },
                    }
                }
                Some(Ok(()))
            },
            Keyword::Rotation => {
                if self.rotation.is_none() {
                    match rot(kp.parameter) {
                        Ok((_, v)) => {
                            self.rotation = Some(v);
                        },
                        Err(e) => {
                            return Some(Err(e));
                        },
                    }
                }
                Some(Ok(()))
            },
            Keyword::Shape => {
                if self.shape.is_none() {
                    match Shape::from_parameters(kp.parameter) {
                        Ok(v) => {
                            self.shape = Some(v);
                        },
                        Err(e) => {
                            return Some(Err(e));
                        },
                    }
                }
                Some(Ok(()))
            },
            Keyword::Text => {
                match Text::from_parameters(kp.parameter) {
                    Ok(v) => {
                        let ghost before = self.texts.deep_view();
                        self.texts.push(v);
                        assert(self.texts.deep_view() =~= before.push(v.deep_view()));
                    },
                    Err(e) => {
                        return Some(Err(e));
                    },
                }
                Some(Ok(()))
            },
            Keyword::Sheet => {
                if self.sheet.is_none() {
                    match string(kp.parameter) {
                        Ok((_, v)) => {
                            self.sheet = Some(v);
                        },
                        Err(e) => {
                            return Some(Err(e));
                        },
                    }
                }
                Some(Ok(()))
            },
            _ => None,
        }
    }
}

/// The builder of one component.
#[derive(Debug, Clone, PartialEq, Eq)]
pub struct ComponentParser {
    /// The sub-record that is open.
    pub state: Option<SubComponent>,
    /// The component as far as it is built.
    pub prototype: ComponentPrototype,
}

impl DeepView for ComponentParser {
    type V = ComponentParserView;

    open spec fn deep_view(&self) -> ComponentParserView {
        ComponentParserView {
            open: self.state.deep_view(),
            prototype: self.prototype.deep_view(),
        }
    }
}

impl ComponentParser {
    /// Opens the builder of the component that the parameter of a
    /// `COMPONENT` line names.
    pub fn from_parameters(params: &str) -> (r: Result<ComponentParser, ParseError>)
        ensures
            match r {
                Ok(p) => spec_component_new(params@) == Ok::<
                    ComponentPrototypeView,
                    ParseErrorView,
                >(p.prototype.deep_view()) && p.state is None,
                Err(e) => spec_component_new(params@) == Err::<
                    ComponentPrototypeView,
                    ParseErrorView,
                >(e.deep_view()),
            },
    {
        let prototype = ComponentPrototype::from_parameters(params)?;
        Ok(ComponentParser { state: None, prototype })
    }

    /// Closes the open sub-record.
    pub fn done(&mut self)
        ensures
            final(self).state is None,
            final(self).prototype.deep_view() == spec_component_done(old(self).deep_view()),
    {
        if let Some(sub) = self.state.take() {
            let ghost before = self.prototype.subcomponents.deep_view();
            self.prototype.subcomponents.push(sub);
            assert(self.prototype.subcomponents.deep_view() =~= before.push(sub.deep_view()));
        }
    }

    /// Takes in the line `kp`. On an error the builder is as before.
    pub fn ingest(&mut self, kp: &KeywordParam) -> (r: Result<(), ParseError>)
        ensures
            match r {
                Ok(_) => spec_component_step(old(self).deep_view(), kp.deep_view()) == Ok::<
                    ComponentParserView,
                    ParseErrorView,
                >(final(self).deep_view()),
                Err(e) => spec_component_step(old(self).deep_view(), kp.deep_view()) == Err::<
                    ComponentParserView,
                    ParseErrorView,
                >(e.deep_view()) && final(self).deep_view() == old(self).deep_view(),
            },
    {
        if let Keyword::Attribute = Keyword::of(kp.keyword) {
            let (_, a) = attrib_ref(kp.parameter)?;
            match self.state.take() {
                Some(sub) => {
                    self.state = Some(sub.with_attribute(a));
                },
                None => {
                    let ghost before = self.prototype.attributes.deep_view();
                    self.prototype.attributes.push(a);
                    assert(self.prototype.attributes.deep_view() =~= before.push(
                        a.deep_view(),
                    ));
                },
            }
            return Ok(());
        }
        if let Some(sub) = SubComponent::from_line(kp) {
            let sub = sub?;
            self.done();
            self.state = Some(sub);
            return Ok(());
        }
        let open = self.state.take();
        let ghost before = self.prototype.subcomponents.deep_view();
        let had = open.is_some();
        if let Some(sub) = open {
            self.prototype.subcomponents.push(sub);
            assert(self.prototype.subcomponents.deep_view() =~= before.push(sub.deep_view()));
        }
        match self.prototype.update(kp) {
            Some(Ok(_)) => Ok(()),
            Some(Err(e)) => {
                if had {
                    self.state = self.prototype.subcomponents.pop();
                    assert(self.prototype.subcomponents.deep_view() =~= before);
                }
                Err(e)
            },
            None => {
                if had {
                    self.state = self.prototype.subcomponents.pop();
                    assert(self.prototype.subcomponents.deep_view() =~= before);
                }
                Err(unexpected(SectionKind::Components, kp.keyword))
            },
        }
    }
}

/// The builder of the `COMPONENTS` section.
#[derive(Debug, Clone, PartialEq, Eq)]
pub struct ComponentsParser {
    /// The builder of the component that is open.
    pub state: Option<ComponentParser>,
    /// The components that are complete.
    pub components: Vec<Component>,
}

impl DeepView for ComponentsParser {
    type V = ComponentsParserView;

    open spec fn deep_view(&self) -> ComponentsParserView {
        ComponentsParserView {
            components: self.components.deep_view(),
            open: self.state.deep_view(),
        }
    }
}

impl ComponentsParser {
    /// The builder before the first line.
    pub fn new() -> (r: ComponentsParser)
        ensures
            r.deep_view() == spec_components_init(),
    {
        let r = ComponentsParser { state: None, components: Vec::new() };
        assert(r.components.deep_view() =~= Seq::empty());
        r
    }

    /// Closes the open component, which must be complete. On an error the
    /// builder is as before.
    pub fn flush(&mut self) -> (r: Result<(), ParseError>)
        ensures
            match r {
                Ok(_) => spec_components_flushed(old(self).deep_view()) == Ok::<
                    Seq<ComponentView>,
                    ParseErrorView,
                >(final(self).components.deep_view()) && final(self).state is None,
                Err(e) => spec_components_flushed(old(self).deep_view()) == Err::<
                    Seq<ComponentView>,
                    ParseErrorView,
                >(e.deep_view()) && final(self).deep_view() == old(self).deep_view(),
            },
    {
        match self.state.take() {
            None => Ok(()),
            Some(mut parser) => {
                if let Some(field) = parser.prototype.lacks() {
                    self.state = Some(parser);
                    return Err(missing(SectionKind::Components, field));
                }
                parser.done();
                match parser.prototype.to_component() {
                    Ok(c) => {
                        let ghost before = self.components.deep_view();
                        self.components.push(c);
                        assert(self.components.deep_view() =~= before.push(c.deep_view()));
                        Ok(())
                    },
                    Err(e) => Err(e),
                }
            },
        }
    }

    /// Takes in the line `kp`. On an error the builder is as before.
    pub fn ingest(&mut self, kp: &KeywordParam) -> (r: Result<(), ParseError>)
        ensures
            match r {
                Ok(_) => spec_components_step(old(self).deep_view(), kp.deep_view()) == Ok::<
                    ComponentsParserView,
                    ParseErrorView,
                >(final(self).deep_view()),
                Err(e) => spec_components_step(old(self).deep_view(), kp.deep_view()) == Err::<
                    ComponentsParserView,
                    ParseErrorView,
                >(e.deep_view()) && final(self).deep_view() == old(self).deep_view(),
            },
    {
        match Keyword::of(kp.keyword) {
            Keyword::Component => {
                if let Some(parser) = &self.state {
                    if let Some(field) = parser.prototype.lacks() {
                        return Err(missing(SectionKind::Components, field));
                    }
                }
                let next = ComponentParser::from_parameters(kp.parameter)?;
                match self.flush() {
                    Ok(_) => {
                        self.state = Some(next);
                        Ok(())
                    },
                    Err(e) => Err(e),
                }
            },
            _ => match self.state.take() {
                Some(mut parser) => {
                    let r = parser.ingest(kp);
                    self.state = Some(parser);
                    r
                },
                None => Err(unexpected(SectionKind::Components, kp.keyword)),
            },
        }
    }

    /// Closes the open component and hands out the components.
    pub fn finalize(self) -> (r: Result<Vec<Component>, ParseError>)
        ensures
            agrees_whole(r, spec_components_flushed(self.deep_view())),
    {
        let mut parser = self;
        parser.flush()?;
        Ok(parser.components)
    }
}

/// Parse the `COMPONENTS` section of a GenCAD file.
pub fn parse_components(params: &[KeywordParam]) -> (r: Result<Vec<Component>, ParseError>)
    ensures
        agrees_whole(r, spec_parse_components(params.deep_view())),
{
    let ghost step = |s: ComponentsParserView, kp: KeywordParamView| spec_components_step(s, kp);
    let ghost lines = params.deep_view();
    let mut sp = ComponentsParser::new();
    let mut i: usize = 0;
    while i < params.len()
        invariant
            0 <= i <= params.len(),
            lines == params.deep_view(),
            step == |s: ComponentsParserView, kp: KeywordParamView| spec_components_step(s, kp),
            run(step, spec_components_init(), lines.take(i as int)) == Ok::<
                ComponentsParserView,
                ParseErrorView,
            >(sp.deep_view()),
        decreases params.len() - i,
    {
        proof {
            lemma_run_step(step, spec_components_init(), lines, i as int);
            lemma_run_error(step, spec_components_init(), lines, i as int + 1);
            assert(lines[i as int] == params[i as int].deep_view());
        }
        sp.ingest(&params[i])?;
        i += 1;
    }
    assert(lines.take(i as int) == lines);
    sp.finalize()
}

/// The parameter of the `SHAPE` line of a component.
pub open spec fn shape_ref_text(v: ShapeRefView) -> Seq<char> {
    string_text(v.name) + " "@ + mirror_text(v.mirror) + " "@ + flag_text("FLIP"@, v.flip)
}

/// The lines of an artwork of a component: its opening line and its attributes.
pub open spec fn component_artwork_text(v: ArtworkView) -> Seq<char> {
    join_lines(
        seq![
            "ARTWORK "@ + string_text(v.name) + " "@ + x_y_text(v.xy) + " "@ + v.rotation + " "@
                + mirror_text(v.mirror) + " "@ + flag_text("FLIP"@, v.flip),
            attributes_text(v.attributes),
        ],
    )
}

/// The lines of a fiducial of a component: its opening line and its attributes.
pub open spec fn component_fid_text(v: FidView) -> Seq<char> {
    join_lines(
        seq![
            "FID "@ + string_text(v.name) + " "@ + string_text(v.pad_name) + " "@ + x_y_text(v.xy)
                + " "@ + layer_text(v.layer) + " "@ + v.rotation + " "@ + mirror_text(v.mirror)
                + " "@ + flag_text("FLIP"@, v.flip),
            attributes_text(v.attributes),
        ],
    )
}

/// The lines of a sub-record of a component.
pub open spec fn subcomponent_text(v: SubComponentView) -> Seq<char> {
    match v {
        SubComponentView::Artwork(a) => component_artwork_text(a),
        SubComponentView::Fid(f) => component_fid_text(f),
    }
}

/// The lines of a component, in the order in which they are written: the
/// opening line, device, place, layer, rotation, shape, sheet, the texts, the
/// attributes, and the sub-records. The attributes stand before the
/// sub-records, so that they are read back as the component's own.
pub open spec fn component_lines(v: ComponentView) -> Seq<Seq<char>> {
    seq![
        "COMPONENT "@ + string_text(v.name),
        "DEVICE "@ + string_text(v.device),
        "PLACE "@ + x_y_text(v.place),
        "LAYER "@ + layer_text(v.layer),
        "ROTATION "@ + v.rotation,
        "SHAPE "@ + shape_ref_text(v.shape),
    ] + opt_line("SHEET "@, opt_string_text(v.sheet)) + v.texts.map_values(
        |t: TextView| text_line(t),
    ) + seq![attributes_text(v.attributes)] + v.subcomponents.map_values(
        |s: SubComponentView| subcomponent_text(s),
    )
}

/// The text of a component.
pub open spec fn component_text(v: ComponentView) -> Seq<char> {
    join_lines(component_lines(v))
}

/// The text of the `COMPONENTS` section: the opening line, the components,
/// the closing line.
pub open spec fn components_text(v: Seq<ComponentView>) -> Seq<char> {
    join_lines(
        seq!["$COMPONENTS"@] + v.map_values(|c: ComponentView| component_text(c)) + seq![
            "$ENDCOMPONENTS"@,
        ],
    )
}

impl ToGencadString for Shape {
    open spec fn gencad(&self) -> Seq<char> {
        shape_ref_text(self.deep_view())
    }

    fn to_gencad_string(&self) -> (r: String) {
        let mut out = self.name.to_gencad_string();
        out.append(" ");
        out.append(self.mirror.to_gencad_string().as_str());
        out.append(" ");
        out.append(flag_to_string("FLIP", self.flip).as_str());
        out
    }
}

impl ToGencadString for Artwork {
    open spec fn gencad(&self) -> Seq<char> {
        component_artwork_text(self.deep_view())
    }

    fn to_gencad_string(&self) -> (r: String) {
        let mut head = concat("ARTWORK ", self.name.to_gencad_string().as_str());
        head.append(" ");
        head.append(self.xy.to_gencad_string().as_str());
        head.append(" ");
        head.append(self.rotation.as_str());
        head.append(" ");
        head.append(self.mirror.to_gencad_string().as_str());
        head.append(" ");
        head.append(flag_to_string("FLIP", self.flip).as_str());
        let mut lines: Vec<String> = Vec::new();
        lines.push(head);
        lines.push(self.attributes.to_gencad_string());
        assert(lines.deep_view() =~= seq![head@, attributes_text(self.attributes.deep_view())]);
        join(&lines)
    }
}

impl ToGencadString for Fid {
    open spec fn gencad(&self) -> Seq<char> {
        component_fid_text(self.deep_view())
    }

    fn to_gencad_string(&self) -> (r: String) {
        let mut head = concat("FID ", self.name.to_gencad_string().as_str());
        head.append(" ");
        head.append(self.pad_name.to_gencad_string().as_str());
        head.append(" ");
        head.append(self.xy.to_gencad_string().as_str());
        head.append(" ");
        head.append(self.layer.to_gencad_string().as_str());
        head.append(" ");
        head.append(self.rotation.as_str());
        head.append(" ");
        head.append(self.mirror.to_gencad_string().as_str());
        head.append(" ");
        head.append(flag_to_string("FLIP", self.flip).as_str());
        let mut lines: Vec<String> = Vec::new();
        lines.push(head);
        lines.push(self.attributes.to_gencad_string());
        assert(lines.deep_view() =~= seq![head@, attributes_text(self.attributes.deep_view())]);
        join(&lines)
    }
}

impl ToGencadString for Text {
    open spec fn gencad(&self) -> Seq<char> {
        text_line(self.deep_view())
    }

    fn to_gencad_string(&self) -> (r: String) {
        let mut out = concat("TEXT ", self.origin.to_gencad_string().as_str());
        out.append(" ");
        out.append(self.text.to_gencad_string().as_str());
        out
    }
}

impl ToGencadString for SubComponent {
    open spec fn gencad(&self) -> Seq<char> {
        subcomponent_text(self.deep_view())
    }

    fn to_gencad_string(&self) -> (r: String) {
        match self {
            SubComponent::Artwork(a) => a.to_gencad_string(),
            SubComponent::Fid(f) => f.to_gencad_string(),
        }
    }
}

impl ToGencadString for Component {
    open spec fn gencad(&self) -> Seq<char> {
        component_text(self.deep_view())
    }

    fn to_gencad_string(&self) -> (r: String) {
        let mut lines: Vec<String> = Vec::new();
        lines.push(concat("COMPONENT ", self.name.to_gencad_string().as_str()));
        lines.push(concat("DEVICE ", self.device.to_gencad_string().as_str()));
        lines.push(concat("PLACE ", self.place.to_gencad_string().as_str()));
        lines.push(concat("LAYER ", self.layer.to_gencad_string().as_str()));
        lines.push(concat("ROTATION ", self.rotation.as_str()));
        lines.push(concat("SHAPE ", self.shape.to_gencad_string().as_str()));
        assert(lines.deep_view() =~= seq![
            "COMPONENT "@ + string_text(self.name@),
            "DEVICE "@ + string_text(self.device@),
            "PLACE "@ + x_y_text(self.place.deep_view()),
            "LAYER "@ + layer_text(self.layer),
            "ROTATION "@ + self.rotation.deep_view(),
            "SHAPE "@ + shape_ref_text(self.shape.deep_view()),
        ]);
        push_opt_line(&mut lines, "SHEET ", render_opt(&self.sheet));
        let texts = render_all(&self.texts);
        assert(texts.deep_view() =~= self.texts.deep_view().map_values(
            |t: TextView| text_line(t),
        ));
        extend_lines(&mut lines, texts);
        let ghost head = lines.deep_view();
        push_line(&mut lines, self.attributes.to_gencad_string());
        assert(lines.deep_view() =~= head + seq![attributes_text(self.attributes.deep_view())]);
        let subs = render_all(&self.subcomponents);
        assert(subs.deep_view() =~= self.subcomponents.deep_view().map_values(
            |s: SubComponentView| subcomponent_text(s),
        ));
        extend_lines(&mut lines, subs);
        join(&lines)
    }
}

impl ToGencadString for Vec<Component> {
    open spec fn gencad(&self) -> Seq<char> {
        components_text(self.deep_view())
    }

    fn to_gencad_string(&self) -> (r: String) {
        let mut lines: Vec<String> = Vec::new();
        lines.push(String::from_str("$COMPONENTS"));
        assert(lines.deep_view() =~= seq!["$COMPONENTS"@]);
        let components = render_all(self);
        assert(components.deep_view() =~= self.deep_view().map_values(|d: ComponentView| component_text(d)));
        extend_lines(&mut lines, components);
        let ghost body = lines.deep_view();
        push_line(&mut lines, String::from_str("$ENDCOMPONENTS"));
        assert(lines.deep_view() =~= body + seq!["$ENDCOMPONENTS"@]);
        join(&lines)
    }
}

/// Whether the sub-record `v` of a component can be written and read back.
pub open spec fn subcomponent_ok(v: SubComponentView) -> bool {
    match v {
        SubComponentView::Artwork(a) => is_writable(a.name) && x_y_ok(a.xy) && is_number(
            a.rotation,
        ) && attributes_ok(a.attributes),
        SubComponentView::Fid(f) => is_writable(f.name) && is_writable(f.pad_name) && x_y_ok(f.xy)
            && is_number(f.rotation) && attributes_ok(f.attributes),
    }
}

/// Whether the component `v` can be written and read back.
pub open spec fn component_ok(v: ComponentView) -> bool {
    &&& is_writable(v.name)
    &&& is_writable(v.device)
    &&& x_y_ok(v.place)
    &&& is_number(v.rotation)
    &&& is_writable(v.shape.name)
    &&& v.sheet matches Some(s) ==> is_writable(s)
    &&& forall|i: int| 0 <= i < v.texts.len() ==> text_ok(#[trigger] v.texts[i])
    &&& attributes_ok(v.attributes)
    &&& forall|i: int| 0 <= i < v.subcomponents.len() ==> subcomponent_ok(#[trigger] v.subcomponents[i])
}

/// Whether each of the components `v` can be written and read back.
pub open spec fn components_ok(v: Seq<ComponentView>) -> bool {
    forall|i: int| 0 <= i < v.len() ==> component_ok(#[trigger] v[i])
}

/// The parameter of the opening line of an artwork of a component.
pub open spec fn component_artwork_parameter(v: ArtworkView) -> Seq<char> {
    string_text(v.name) + " "@ + x_y_text(v.xy) + " "@ + v.rotation + " "@ + mirror_text(v.mirror)
        + " "@ + flag_text("FLIP"@, v.flip)
}

/// The parameter of the opening line of a fiducial of a component.
pub open spec fn component_fid_parameter(v: FidView) -> Seq<char> {
    string_text(v.name) + " "@ + string_text(v.pad_name) + " "@ + x_y_text(v.xy) + " "@
        + layer_text(v.layer) + " "@ + v.rotation + " "@ + mirror_text(v.mirror) + " "@
        + flag_text("FLIP"@, v.flip)
}

/// The statement of the opening line of a sub-record of a component.
pub open spec fn subcomponent_opener(v: SubComponentView) -> KeywordParamView {
    match v {
        SubComponentView::Artwork(a) => KeywordParamView {
            keyword: "ARTWORK"@,
            parameter: component_artwork_parameter(a),
        },
        SubComponentView::Fid(f) => KeywordParamView {
            keyword: "FID"@,
            parameter: component_fid_parameter(f),
        },
    }
}

/// The attributes of a sub-record of a component.
pub open spec fn subcomponent_attributes(v: SubComponentView) -> Seq<AttributeView> {
    match v {
        SubComponentView::Artwork(a) => a.attributes,
        SubComponentView::Fid(f) => f.attributes,
    }
}

/// The sub-record `v` with the attributes `list`.
pub open spec fn subcomponent_with_attributes(
    v: SubComponentView,
    list: Seq<AttributeView>,
) -> SubComponentView {
    match v {
        SubComponentView::Artwork(a) => SubComponentView::Artwork(
            ArtworkView { attributes: list, ..a },
        ),
        SubComponentView::Fid(f) => SubComponentView::Fid(FidView { attributes: list, ..f }),
    }
}

/// The statements of a sub-record of a component, in the order of its lines.
pub open spec fn subcomponent_statements(v: SubComponentView) -> Seq<KeywordParamView> {
    seq![subcomponent_opener(v)] + subcomponent_attributes(v).map_values(
        |a: AttributeView| attribute_statement(a),
    )
}

/// The statements of the sub-records `v` of a component, one behind the other.
pub open spec fn subcomponents_statements(v: Seq<SubComponentView>) -> Seq<KeywordParamView> {
    concat_all(v.map_values(|s: SubComponentView| subcomponent_statements(s)))
}

/// The statement of a text of a component.
pub open spec fn text_statement(v: TextView) -> KeywordParamView {
    KeywordParamView { keyword: "TEXT"@, parameter: text_parameter(v) }
}

/// The statements of the fields that a component cannot do without, behind
/// its opening line.
pub open spec fn component_fixed_statements(v: ComponentView) -> Seq<KeywordParamView> {
    seq![
        KeywordParamView { keyword: "COMPONENT"@, parameter: string_text(v.name) },
        KeywordParamView { keyword: "DEVICE"@, parameter: string_text(v.device) },
        KeywordParamView { keyword: "PLACE"@, parameter: x_y_text(v.place) },
        KeywordParamView { keyword: "LAYER"@, parameter: layer_text(v.layer) },
        KeywordParamView { keyword: "ROTATION"@, parameter: v.rotation },
        KeywordParamView { keyword: "SHAPE"@, parameter: shape_ref_text(v.shape) },
    ]
}

/// The statements of the sheet, the texts and the attributes of a component.
pub open spec fn component_more_statements(v: ComponentView) -> Seq<KeywordParamView> {
    opt_statement("SHEET"@, opt_string_text(v.sheet)) + v.texts.map_values(
        |t: TextView| text_statement(t),
    ) + v.attributes.map_values(|a: AttributeView| attribute_statement(a))
}

/// The statements of a component, in the order of its lines.
pub open spec fn component_statements(v: ComponentView) -> Seq<KeywordParamView> {
    component_fixed_statements(v) + component_more_statements(v) + subcomponents_statements(
        v.subcomponents,
    )
}

/// A flip flag behind one space is read back.
proof fn lemma_sp_flip_round_trip(b: bool, t: Seq<char>)
    ensures
        spec_sp_flip(" "@ + (flag_text("FLIP"@, b) + t)) == Ok::<(Seq<char>, bool), ParseErrorView>(
            (t, b),
        ),
        ends_token(" "@ + (flag_text("FLIP"@, b) + t)),
        one_line(flag_text("FLIP"@, b)),
{
    reveal_strlit(" ");
    reveal_strlit("FLIP");
    lemma_flip_round_trip(b, t);
    assert((flag_text("FLIP"@, b) + t)[0] == flag_text("FLIP"@, b)[0]);
    lemma_one_space(flag_text("FLIP"@, b) + t);
    assert((" "@ + (flag_text("FLIP"@, b) + t))[0] == ' ');
    lemma_flag_one_line("FLIP"@, b);
}

/// The parameter of the `SHAPE` line of a component is read back.
proof fn lemma_whole_shape_ref(v: ShapeRefView)
    requires
        is_writable(v.name),
    ensures
        spec_shape_ref(shape_ref_text(v)) == Ok::<ShapeRefView, ParseErrorView>(v),
        one_line(shape_ref_text(v)),
{
    reveal_strlit(" ");
    let none = Seq::<char>::empty();
    let tail2 = " "@ + (flag_text("FLIP"@, v.flip) + none);
    let tail1 = " "@ + (mirror_text(v.mirror) + tail2);
    lemma_sp_flip_round_trip(v.flip, none);
    lemma_sp_mirror_round_trip(v.mirror, tail2);
    lemma_string_round_trip(v.name, tail1);
    assert(shape_ref_text(v) =~= string_text(v.name) + tail1);
    lemma_string_one_line(v.name);
    lemma_mirror_text_one_line(v.mirror);
    lemma_one_line_concat(string_text(v.name), " "@);
    lemma_one_line_concat(string_text(v.name) + " "@, mirror_text(v.mirror));
    lemma_one_line_concat(string_text(v.name) + " "@ + mirror_text(v.mirror), " "@);
    lemma_one_line_concat(string_text(v.name) + " "@ + mirror_text(v.mirror) + " "@, flag_text("FLIP"@, v.flip));
}

/// The opening line of an artwork of a component is read back.
#[verifier::rlimit(80)]
#[verifier::spinoff_prover]
proof fn lemma_whole_component_artwork(v: ArtworkView)
    requires
        subcomponent_ok(SubComponentView::Artwork(v)),
    ensures
        spec_component_artwork(component_artwork_parameter(v)) == Ok::<ArtworkView, ParseErrorView>(
            ArtworkView { attributes: Seq::empty(), ..v },
        ),
        one_line(component_artwork_parameter(v)),
{
    reveal(spec_component_artwork);
    reveal_strlit(" ");
    let none = Seq::<char>::empty();
    let tail4 = " "@ + (flag_text("FLIP"@, v.flip) + none);
    let tail3 = " "@ + (mirror_text(v.mirror) + tail4);
    let tail2 = " "@ + (v.rotation + tail3);
    let tail1 = " "@ + (x_y_text(v.xy) + tail2);
    lemma_sp_flip_round_trip(v.flip, none);
    lemma_sp_mirror_round_trip(v.mirror, tail4);
    lemma_sp_number_round_trip(v.rotation, tail3);
    lemma_sp_x_y_round_trip(v.xy, tail2);
    lemma_string_round_trip(v.name, tail1);
    assert(component_artwork_parameter(v) =~= string_text(v.name) + tail1);
    lemma_string_one_line(v.name);
    lemma_x_y_one_line(v.xy);
    lemma_number_one_line(v.rotation);
    lemma_mirror_text_one_line(v.mirror);
    lemma_one_line_concat(string_text(v.name), " "@);
    lemma_one_line_concat(string_text(v.name) + " "@, x_y_text(v.xy));
    lemma_one_line_concat(string_text(v.name) + " "@ + x_y_text(v.xy), " "@);
    lemma_one_line_concat(string_text(v.name) + " "@ + x_y_text(v.xy) + " "@, v.rotation);
    lemma_one_line_concat(string_text(v.name) + " "@ + x_y_text(v.xy) + " "@ + v.rotation, " "@);
    lemma_one_line_concat(string_text(v.name) + " "@ + x_y_text(v.xy) + " "@ + v.rotation + " "@, mirror_text(v.mirror));
    lemma_one_line_concat(string_text(v.name) + " "@ + x_y_text(v.xy) + " "@ + v.rotation + " "@ + mirror_text(v.mirror), " "@);
    lemma_one_line_concat(string_text(v.name) + " "@ + x_y_text(v.xy) + " "@ + v.rotation + " "@ + mirror_text(v.mirror) + " "@, flag_text("FLIP"@, v.flip));
}

/// The parameter of the opening line of a fiducial of a component is read back.
#[verifier::rlimit(80)]
#[verifier::spinoff_prover]
proof fn lemma_component_fid_parsed(v: FidView)
    requires
        subcomponent_ok(SubComponentView::Fid(v)),
    ensures
        spec_component_fid(component_fid_parameter(v)) == Ok::<FidView, ParseErrorView>(
            FidView { attributes: Seq::empty(), ..v },
        ),
{
    reveal(spec_component_fid);
    let none = Seq::<char>::empty();
    let tail6 = " "@ + (flag_text("FLIP"@, v.flip) + none);
    let tail5 = " "@ + (mirror_text(v.mirror) + tail6);
    let tail4 = " "@ + (v.rotation + tail5);
    let tail3 = " "@ + (layer_text(v.layer) + tail4);
    let tail2 = " "@ + (x_y_text(v.xy) + tail3);
    let tail1 = " "@ + (string_text(v.pad_name) + tail2);
    lemma_sp_flip_round_trip(v.flip, none);
    lemma_sp_mirror_round_trip(v.mirror, tail6);
    lemma_sp_number_round_trip(v.rotation, tail5);
    lemma_sp_layer_round_trip(v.layer, tail4);
    lemma_sp_x_y_round_trip(v.xy, tail3);
    lemma_sp_string_round_trip(v.pad_name, tail2);
    lemma_string_round_trip(v.name, tail1);
    assert(string_text(v.name) + " "@ + string_text(v.pad_name) + " "@ + x_y_text(v.xy) + " "@ + layer_text(v.layer) + " "@ + v.rotation + " "@ + mirror_text(v.mirror) + " "@ + flag_text("FLIP"@, v.flip) =~= string_text(v.name) + " "@ + string_text(v.pad_name) + " "@ + x_y_text(v.xy) + " "@ + layer_text(v.layer) + " "@ + v.rotation + " "@ + mirror_text(v.mirror) + tail6);
    assert(string_text(v.name) + " "@ + string_text(v.pad_name) + " "@ + x_y_text(v.xy) + " "@ + layer_text(v.layer) + " "@ + v.rotation + " "@ + mirror_text(v.mirror) + tail6 =~= string_text(v.name) + " "@ + string_text(v.pad_name) + " "@ + x_y_text(v.xy) + " "@ + layer_text(v.layer) + " "@ + v.rotation + tail5);
    assert(string_text(v.name) + " "@ + string_text(v.pad_name) + " "@ + x_y_text(v.xy) + " "@ + layer_text(v.layer) + " "@ + v.rotation + tail5 =~= string_text(v.name) + " "@ + string_text(v.pad_name) + " "@ + x_y_text(v.xy) + " "@ + layer_text(v.layer) + tail4);
    assert(string_text(v.name) + " "@ + string_text(v.pad_name) + " "@ + x_y_text(v.xy) + " "@ + layer_text(v.layer) + tail4 =~= string_text(v.name) + " "@ + string_text(v.pad_name) + " "@ + x_y_text(v.xy) + tail3);
    assert(string_text(v.name) + " "@ + string_text(v.pad_name) + " "@ + x_y_text(v.xy) + tail3 =~= string_text(v.name) + " "@ + string_text(v.pad_name) + tail2);
    assert(string_text(v.name) + " "@ + string_text(v.pad_name) + tail2 =~= string_text(v.name) + tail1);
    assert(component_fid_parameter(v) == string_text(v.name) + tail1);
}

/// The opening line of a fiducial of a component is read back.
proof fn lemma_whole_component_fid(v: FidView)
    requires
        subcomponent_ok(SubComponentView::Fid(v)),
    ensures
        spec_component_fid(component_fid_parameter(v)) == Ok::<FidView, ParseErrorView>(
            FidView { attributes: Seq::empty(), ..v },
        ),
        one_line(component_fid_parameter(v)),
{
    reveal_strlit(" ");
    lemma_component_fid_parsed(v);
    lemma_sp_flip_round_trip(v.flip, Seq::empty());
    lemma_string_one_line(v.name);
    lemma_string_one_line(v.pad_name);
    lemma_x_y_one_line(v.xy);
    lemma_layer_text_one_line(v.layer);
    lemma_number_one_line(v.rotation);
    lemma_mirror_text_one_line(v.mirror);
    lemma_one_line_concat(string_text(v.name), " "@);
    lemma_one_line_concat(string_text(v.name) + " "@, string_text(v.pad_name));
    lemma_one_line_concat(string_text(v.name) + " "@ + string_text(v.pad_name), " "@);
    lemma_one_line_concat(string_text(v.name) + " "@ + string_text(v.pad_name) + " "@, x_y_text(v.xy));
    lemma_one_line_concat(string_text(v.name) + " "@ + string_text(v.pad_name) + " "@ + x_y_text(v.xy), " "@);
    lemma_one_line_concat(string_text(v.name) + " "@ + string_text(v.pad_name) + " "@ + x_y_text(v.xy) + " "@, layer_text(v.layer));
    lemma_one_line_concat(string_text(v.name) + " "@ + string_text(v.pad_name) + " "@ + x_y_text(v.xy) + " "@ + layer_text(v.layer), " "@);
    lemma_one_line_concat(string_text(v.name) + " "@ + string_text(v.pad_name) + " "@ + x_y_text(v.xy) + " "@ + layer_text(v.layer) + " "@, v.rotation);
    lemma_one_line_concat(string_text(v.name) + " "@ + string_text(v.pad_name) + " "@ + x_y_text(v.xy) + " "@ + layer_text(v.layer) + " "@ + v.rotation, " "@);
    lemma_one_line_concat(string_text(v.name) + " "@ + string_text(v.pad_name) + " "@ + x_y_text(v.xy) + " "@ + layer_text(v.layer) + " "@ + v.rotation + " "@, mirror_text(v.mirror));
    lemma_one_line_concat(string_text(v.name) + " "@ + string_text(v.pad_name) + " "@ + x_y_text(v.xy) + " "@ + layer_text(v.layer) + " "@ + v.rotation + " "@ + mirror_text(v.mirror), " "@);
    lemma_one_line_concat(string_text(v.name) + " "@ + string_text(v.pad_name) + " "@ + x_y_text(v.xy) + " "@ + layer_text(v.layer) + " "@ + v.rotation + " "@ + mirror_text(v.mirror) + " "@, flag_text("FLIP"@, v.flip));
}

/// The opening line of a sub-record of a component is read back: it is no
/// attribute, and opens the sub-record.
proof fn lemma_whole_subcomponent_opener(v: SubComponentView)
    requires
        subcomponent_ok(v),
    ensures
        Keyword::spec_of(subcomponent_opener(v).keyword) != Keyword::Attribute,
        Keyword::spec_of(subcomponent_opener(v).keyword) != Keyword::Component,
        spec_subcomponent_new(subcomponent_opener(v)) == Some(
            Ok::<SubComponentView, ParseErrorView>(subcomponent_with_attributes(v, Seq::empty())),
        ),
        one_line(subcomponent_opener(v).parameter),
{
    match v {
        SubComponentView::Artwork(a) => {
            lemma_keyword(Keyword::Artwork);
            lemma_whole_component_artwork(a);
        },
        SubComponentView::Fid(f) => {
            lemma_keyword(Keyword::Fid);
            lemma_whole_component_fid(f);
        },
    }
}

/// The text of an artwork of a component is read as its statements.
proof fn lemma_component_artwork_reads(a: ArtworkView)
    requires
        subcomponent_ok(SubComponentView::Artwork(a)),
    ensures
        reads_as(component_artwork_text(a), subcomponent_statements(SubComponentView::Artwork(a))),
{
    let v = SubComponentView::Artwork(a);
    reveal_strlit(" ");
    lemma_whole_subcomponent_opener(v);
    lemma_reads_empty();
    let none = Seq::<Seq<char>>::empty();
    assert(join_lines(none) =~= Seq::<char>::empty());
    let opener = subcomponent_opener(v);
    let attributes = a.attributes.map_values(|a: AttributeView| attribute_statement(a));
    let s0 = Seq::<KeywordParamView>::empty() + seq![opener];
    lemma_keyword(Keyword::Artwork);
    reveal_strlit("ARTWORK ");
    reveal_strlit("ARTWORK");
    assert("ARTWORK "@ =~= "ARTWORK"@ + " "@);
    let head = "ARTWORK "@ + component_artwork_parameter(a);
    lemma_reads_keyword_line("ARTWORK "@, "ARTWORK"@, component_artwork_parameter(a));
    lemma_reads_more(none, Seq::empty(), head, seq![opener]);
    lemma_reads_attributes(a.attributes);
    lemma_reads_more(none.push(head), s0, attributes_text(a.attributes), attributes);
    assert(head =~= "ARTWORK "@ + string_text(a.name) + " "@ + x_y_text(a.xy) + " "@ + a.rotation
        + " "@ + mirror_text(a.mirror) + " "@ + flag_text("FLIP"@, a.flip));
    assert(none.push(head).push(attributes_text(a.attributes)) =~= seq![
        head,
        attributes_text(a.attributes),
    ]);
    assert(s0 + attributes =~= subcomponent_statements(v));
}

/// The text of a fiducial of a component is read as its statements.
proof fn lemma_component_fid_reads(f: FidView)
    requires
        subcomponent_ok(SubComponentView::Fid(f)),
    ensures
        reads_as(component_fid_text(f), subcomponent_statements(SubComponentView::Fid(f))),
{
    let v = SubComponentView::Fid(f);
    reveal_strlit(" ");
    lemma_whole_subcomponent_opener(v);
    lemma_reads_empty();
    let none = Seq::<Seq<char>>::empty();
    assert(join_lines(none) =~= Seq::<char>::empty());
    let opener = subcomponent_opener(v);
    let attributes = f.attributes.map_values(|a: AttributeView| attribute_statement(a));
    let s0 = Seq::<KeywordParamView>::empty() + seq![opener];
    lemma_keyword(Keyword::Fid);
    reveal_strlit("FID ");
    reveal_strlit("FID");
    assert("FID "@ =~= "FID"@ + " "@);
    let head = "FID "@ + component_fid_parameter(f);
    lemma_reads_keyword_line("FID "@, "FID"@, component_fid_parameter(f));
    lemma_reads_more(none, Seq::empty(), head, seq![opener]);
    lemma_reads_attributes(f.attributes);
    lemma_reads_more(none.push(head), s0, attributes_text(f.attributes), attributes);
    assert(head =~= "FID "@ + string_text(f.name) + " "@ + string_text(f.pad_name) + " "@
        + x_y_text(f.xy) + " "@ + layer_text(f.layer) + " "@ + f.rotation + " "@ + mirror_text(
        f.mirror,
    ) + " "@ + flag_text("FLIP"@, f.flip));
    assert(none.push(head).push(attributes_text(f.attributes)) =~= seq![
        head,
        attributes_text(f.attributes),
    ]);
    assert(s0 + attributes =~= subcomponent_statements(v));
}

/// The text of a sub-record of a component is read as its statements.
proof fn lemma_subcomponent_reads(v: SubComponentView)
    requires
        subcomponent_ok(v),
    ensures
        reads_as(subcomponent_text(v), subcomponent_statements(v)),
{
    match v {
        SubComponentView::Artwork(a) => lemma_component_artwork_reads(a),
        SubComponentView::Fid(f) => lemma_component_fid_reads(f),
    }
}

/// A layer alone on its line is read back.
pub proof fn lemma_whole_layer(v: Layer)
    ensures
        whole(spec_layer(layer_text(v))) == Ok::<Layer, ParseErrorView>(v),
        one_line(layer_text(v)),
{
    lemma_layer_round_trip(v, Seq::empty());
    assert(layer_text(v) + Seq::<char>::empty() =~= layer_text(v));
    lemma_layer_text_one_line(v);
}

/// The line of a text of a component is read back.
proof fn lemma_whole_text(v: TextView)
    requires
        text_ok(v),
    ensures
        spec_text_line(text_parameter(v)) == Ok::<TextView, ParseErrorView>(v),
        reads_as(text_line(v), seq![text_statement(v)]),
{
    reveal_strlit(" ");
    lemma_keyword(Keyword::Text);
    reveal_strlit("TEXT ");
    reveal_strlit("TEXT");
    assert("TEXT "@ =~= "TEXT"@ + " "@);
    lemma_text_line_round_trip(v);
    lemma_x_y_one_line(v.origin);
    lemma_text_par_one_line(v.text);
    lemma_one_line_concat(x_y_text(v.origin), " "@);
    lemma_one_line_concat(x_y_text(v.origin) + " "@, text_par_text(v.text));
    lemma_reads_keyword_line("TEXT "@, "TEXT"@, text_parameter(v));
    assert(text_line(v) =~= "TEXT "@ + text_parameter(v));
}

/// The component `v` under construction, as far as its opening line and
/// the lines of the fields it cannot do without give it.
pub open spec fn prototype_fixed(v: ComponentView) -> ComponentPrototypeView {
    ComponentPrototypeView {
        name: v.name,
        device: Some(v.device),
        place: Some(v.place),
        layer: Some(v.layer),
        rotation: Some(v.rotation),
        shape: Some(v.shape),
        subcomponents: Seq::empty(),
        texts: Seq::empty(),
        sheet: None,
        attributes: Seq::empty(),
    }
}

/// The component `v` under construction, without its sub-records.
pub open spec fn prototype_own(v: ComponentView) -> ComponentPrototypeView {
    ComponentPrototypeView {
        sheet: v.sheet,
        texts: v.texts,
        attributes: v.attributes,
        ..prototype_fixed(v)
    }
}

/// The state of the builder of a component behind the statements of the
/// component `v`: the last sub-record is open, if there is one.
pub open spec fn component_state(v: ComponentView) -> ComponentParserView {
    if v.subcomponents.len() == 0 {
        ComponentParserView { open: None, prototype: prototype_own(v) }
    } else {
        ComponentParserView {
            open: Some(v.subcomponents.last()),
            prototype: ComponentPrototypeView {
                subcomponents: v.subcomponents.drop_last(),
                ..prototype_own(v)
            },
        }
    }
}

/// The lines of the fields that a component cannot do without, behind its
/// opening line.
pub open spec fn component_fixed_lines(v: ComponentView) -> Seq<Seq<char>> {
    seq![
        "COMPONENT "@ + string_text(v.name),
        "DEVICE "@ + string_text(v.device),
        "PLACE "@ + x_y_text(v.place),
        "LAYER "@ + layer_text(v.layer),
        "ROTATION "@ + v.rotation,
        "SHAPE "@ + shape_ref_text(v.shape),
    ]
}

/// The lines of the fixed fields of a component are read as their statements.
proof fn lemma_component_fixed_reads(v: ComponentView)
    requires
        component_ok(v),
    ensures
        reads_as(join_lines(component_fixed_lines(v)), component_fixed_statements(v)),
{
    reveal_strlit(" ");
    lemma_reads_empty();
    let none = Seq::<Seq<char>>::empty();
    assert(join_lines(none) =~= Seq::<char>::empty());
    let f = component_fixed_statements(v);
    let t0 = none;
    let s0 = Seq::<KeywordParamView>::empty();
    reveal_strlit("COMPONENT ");
    reveal_strlit("COMPONENT");
    assert("COMPONENT "@ =~= "COMPONENT"@ + " "@);
    lemma_keyword(Keyword::Component);
    lemma_whole_string(v.name);
    lemma_reads_keyword_line("COMPONENT "@, "COMPONENT"@, string_text(v.name));
    lemma_reads_more(t0, s0, "COMPONENT "@ + string_text(v.name), seq![f[0]]);
    let t1 = t0.push("COMPONENT "@ + string_text(v.name));
    let s1 = s0 + seq![f[0]];
    reveal_strlit("DEVICE ");
    reveal_strlit("DEVICE");
    assert("DEVICE "@ =~= "DEVICE"@ + " "@);
    lemma_keyword(Keyword::Device);
    lemma_whole_string(v.device);
    lemma_reads_keyword_line("DEVICE "@, "DEVICE"@, string_text(v.device));
    lemma_reads_more(t1, s1, "DEVICE "@ + string_text(v.device), seq![f[1]]);
    let t2 = t1.push("DEVICE "@ + string_text(v.device));
    let s2 = s1 + seq![f[1]];
    reveal_strlit("PLACE ");
    reveal_strlit("PLACE");
    assert("PLACE "@ =~= "PLACE"@ + " "@);
    lemma_keyword(Keyword::Place);
    lemma_whole_x_y(v.place);
    lemma_reads_keyword_line("PLACE "@, "PLACE"@, x_y_text(v.place));
    lemma_reads_more(t2, s2, "PLACE "@ + x_y_text(v.place), seq![f[2]]);
    let t3 = t2.push("PLACE "@ + x_y_text(v.place));
    let s3 = s2 + seq![f[2]];
    reveal_strlit("LAYER ");
    reveal_strlit("LAYER");
    assert("LAYER "@ =~= "LAYER"@ + " "@);
    lemma_keyword(Keyword::Layer);
    lemma_whole_layer(v.layer);
    lemma_reads_keyword_line("LAYER "@, "LAYER"@, layer_text(v.layer));
    lemma_reads_more(t3, s3, "LAYER "@ + layer_text(v.layer), seq![f[3]]);
    let t4 = t3.push("LAYER "@ + layer_text(v.layer));
    let s4 = s3 + seq![f[3]];
    reveal_strlit("ROTATION ");
    reveal_strlit("ROTATION");
    assert("ROTATION "@ =~= "ROTATION"@ + " "@);
    lemma_keyword(Keyword::Rotation);
    lemma_whole_number(v.rotation);
    lemma_reads_keyword_line("ROTATION "@, "ROTATION"@, v.rotation);
    lemma_reads_more(t4, s4, "ROTATION "@ + v.rotation, seq![f[4]]);
    let t5 = t4.push("ROTATION "@ + v.rotation);
    let s5 = s4 + seq![f[4]];
    reveal_strlit("SHAPE ");
    reveal_strlit("SHAPE");
    assert("SHAPE "@ =~= "SHAPE"@ + " "@);
    lemma_keyword(Keyword::Shape);
    lemma_whole_shape_ref(v.shape);
    lemma_reads_keyword_line("SHAPE "@, "SHAPE"@, shape_ref_text(v.shape));
    lemma_reads_more(t5, s5, "SHAPE "@ + shape_ref_text(v.shape), seq![f[5]]);
    let t6 = t5.push("SHAPE "@ + shape_ref_text(v.shape));
    let s6 = s5 + seq![f[5]];
    assert(t6 =~= component_fixed_lines(v));
    assert(s6 =~= f);
}

/// The text of a component is read as its statements.
proof fn lemma_component_reads(v: ComponentView)
    requires
        component_ok(v),
    ensures
        reads_as(component_text(v), component_statements(v)),
{
    reveal_strlit(" ");
    reveal_strlit("SHEET ");
    reveal_strlit("SHEET");
    assert("SHEET "@ =~= "SHEET"@ + " "@);
    lemma_keyword(Keyword::Sheet);
    lemma_component_fixed_reads(v);
    let t0 = component_fixed_lines(v);
    let s0 = component_fixed_statements(v);
    if let Some(s) = v.sheet {
        lemma_whole_string(s);
    }
    lemma_reads_opt(t0, s0, "SHEET "@, "SHEET"@, opt_string_text(v.sheet));
    let t1 = t0 + opt_line("SHEET "@, opt_string_text(v.sheet));
    let s1 = s0 + opt_statement("SHEET"@, opt_string_text(v.sheet));
    let text_texts = v.texts.map_values(|t: TextView| text_line(t));
    let texts = v.texts.map_values(|t: TextView| text_statement(t));
    assert forall|i: int| 0 <= i < v.texts.len() implies reads_as(
        text_line(#[trigger] v.texts[i]),
        seq![text_statement(v.texts[i])],
    ) by {
        lemma_whole_text(v.texts[i]);
    }
    lemma_reads_each(v.texts, |t: TextView| text_line(t), |t: TextView| text_statement(t));
    lemma_reads_concat(t1, s1, text_texts, texts);
    let t2 = t1 + text_texts;
    let s2 = s1 + texts;
    lemma_reads_attributes(v.attributes);
    let a = v.attributes.map_values(|a: AttributeView| attribute_statement(a));
    lemma_reads_more(t2, s2, attributes_text(v.attributes), a);
    let t3 = t2.push(attributes_text(v.attributes));
    let s3 = s2 + a;
    let sub_texts = v.subcomponents.map_values(|s: SubComponentView| subcomponent_text(s));
    let sub_lists = v.subcomponents.map_values(|s: SubComponentView| subcomponent_statements(s));
    assert forall|i: int| 0 <= i < sub_texts.len() implies reads_as(
        #[trigger] sub_texts[i],
        sub_lists[i],
    ) by {
        assert(subcomponent_ok(v.subcomponents[i]));
        lemma_subcomponent_reads(v.subcomponents[i]);
    }
    lemma_reads_join_lines(sub_texts, sub_lists);
    if sub_texts.len() == 0 {
        assert(concat_all(sub_lists) =~= Seq::<KeywordParamView>::empty());
    }
    lemma_reads_concat(t3, s3, sub_texts, subcomponents_statements(v.subcomponents));
    assert(t3 + sub_texts =~= component_lines(v));
    assert(s3 + subcomponents_statements(v.subcomponents) =~= component_statements(v));
}

/// The statements of the fixed fields of a component close the component
/// that is open, which must be complete, open the component, and give it the
/// fields it cannot do without.
proof fn lemma_component_fixed_run(state: ComponentsParserView, v: ComponentView)
    requires
        component_ok(v),
        spec_components_flushed(state) is Ok,
    ensures
        run(
            |s: ComponentsParserView, kp: KeywordParamView| spec_components_step(s, kp),
            state,
            component_fixed_statements(v),
        ) == Ok::<ComponentsParserView, ParseErrorView>(
            ComponentsParserView {
                components: spec_components_flushed(state)->Ok_0,
                open: Some(ComponentParserView { open: None, prototype: prototype_fixed(v) }),
            },
        ),
{
    let step = |s: ComponentsParserView, kp: KeywordParamView| spec_components_step(s, kp);
    let components = spec_components_flushed(state)->Ok_0;
    let f = component_fixed_statements(v);
    lemma_keyword(Keyword::Component);
    lemma_whole_string(v.name);
    lemma_keyword(Keyword::Device);
    lemma_whole_string(v.device);
    lemma_keyword(Keyword::Place);
    lemma_whole_x_y(v.place);
    lemma_keyword(Keyword::Layer);
    lemma_whole_layer(v.layer);
    lemma_keyword(Keyword::Rotation);
    lemma_whole_number(v.rotation);
    lemma_keyword(Keyword::Shape);
    lemma_whole_shape_ref(v.shape);
    let proto0 = ComponentPrototypeView {
        device: None,
        place: None,
        layer: None,
        rotation: None,
        shape: None,
        ..prototype_fixed(v)
    };
    let st0 = ComponentsParserView {
        components,
        open: Some(ComponentParserView { open: None, prototype: proto0 }),
    };
    assert(spec_component_new(f[0].parameter) == Ok::<ComponentPrototypeView, ParseErrorView>(proto0));
    lemma_run_one(step, state, f[0]);
    let a0 = Seq::<KeywordParamView>::empty().push(f[0]);
    assert(a0 =~= seq![f[0]]);
    assert(run(step, state, a0) == Ok::<ComponentsParserView, ParseErrorView>(st0));
    let proto1 = ComponentPrototypeView { device: Some(v.device), ..proto0 };
    let st1 = ComponentsParserView {
        components,
        open: Some(ComponentParserView { open: None, prototype: proto1 }),
    };
    assert(spec_subcomponent_new(f[1]) is None);
    lemma_run_push(step, state, a0, f[1]);
    let a1 = a0.push(f[1]);
    assert(run(step, state, a1) == Ok::<ComponentsParserView, ParseErrorView>(st1));
    let proto2 = ComponentPrototypeView { place: Some(v.place), ..proto1 };
    let st2 = ComponentsParserView {
        components,
        open: Some(ComponentParserView { open: None, prototype: proto2 }),
    };
    assert(spec_subcomponent_new(f[2]) is None);
    lemma_run_push(step, state, a1, f[2]);
    let a2 = a1.push(f[2]);
    assert(run(step, state, a2) == Ok::<ComponentsParserView, ParseErrorView>(st2));
    let proto3 = ComponentPrototypeView { layer: Some(v.layer), ..proto2 };
    let st3 = ComponentsParserView {
        components,
        open: Some(ComponentParserView { open: None, prototype: proto3 }),
    };
    assert(spec_subcomponent_new(f[3]) is None);
    lemma_run_push(step, state, a2, f[3]);
    let a3 = a2.push(f[3]);
    assert(run(step, state, a3) == Ok::<ComponentsParserView, ParseErrorView>(st3));
    let proto4 = ComponentPrototypeView { rotation: Some(v.rotation), ..proto3 };
    let st4 = ComponentsParserView {
        components,
        open: Some(ComponentParserView { open: None, prototype: proto4 }),
    };
    assert(spec_subcomponent_new(f[4]) is None);
    lemma_run_push(step, state, a3, f[4]);
    let a4 = a3.push(f[4]);
    assert(run(step, state, a4) == Ok::<ComponentsParserView, ParseErrorView>(st4));
    let proto5 = ComponentPrototypeView { shape: Some(v.shape), ..proto4 };
    let st5 = ComponentsParserView {
        components,
        open: Some(ComponentParserView { open: None, prototype: proto5 }),
    };
    assert(spec_subcomponent_new(f[5]) is None);
    lemma_run_push(step, state, a4, f[5]);
    let a5 = a4.push(f[5]);
    assert(run(step, state, a5) == Ok::<ComponentsParserView, ParseErrorView>(st5));
    assert(a5 =~= f);
    assert(proto5 == prototype_fixed(v));
}

/// The statements of the sheet, the texts and the attributes of a component
/// give them to the open component.
proof fn lemma_component_more_run(components: Seq<ComponentView>, v: ComponentView)
    requires
        component_ok(v),
    ensures
        run(
            |s: ComponentsParserView, kp: KeywordParamView| spec_components_step(s, kp),
            ComponentsParserView {
                components,
                open: Some(ComponentParserView { open: None, prototype: prototype_fixed(v) }),
            },
            component_more_statements(v),
        ) == Ok::<ComponentsParserView, ParseErrorView>(
            ComponentsParserView {
                components,
                open: Some(ComponentParserView { open: None, prototype: prototype_own(v) }),
            },
        ),
{
    let step = |s: ComponentsParserView, kp: KeywordParamView| spec_components_step(s, kp);
    lemma_keyword(Keyword::Sheet);
    lemma_keyword(Keyword::Text);
    lemma_keyword(Keyword::Attribute);
    let proto0 = prototype_fixed(v);
    let st0 = ComponentsParserView {
        components,
        open: Some(ComponentParserView { open: None, prototype: proto0 }),
    };
    let proto1 = ComponentPrototypeView { sheet: v.sheet, ..proto0 };
    let st1 = ComponentsParserView {
        components,
        open: Some(ComponentParserView { open: None, prototype: proto1 }),
    };
    if let Some(s) = v.sheet {
        lemma_whole_string(s);
        let kp = KeywordParamView { keyword: "SHEET"@, parameter: string_text(s) };
        assert(spec_subcomponent_new(kp) is None);
    }
    lemma_run_opt(step, st0, "SHEET"@, opt_string_text(v.sheet), st1);
    let a0 = opt_statement("SHEET"@, opt_string_text(v.sheet));
    let put0 = |s: ComponentsParserView, list: Seq<TextView>|
        ComponentsParserView {
            open: Some(
                ComponentParserView {
                    open: None,
                    prototype: ComponentPrototypeView { texts: list, ..proto1 },
                },
            ),
            ..s
        };
    let line0 = |t: TextView| text_statement(t);
    assert forall|list: Seq<TextView>, j: int| 0 <= j < v.texts.len() implies #[trigger] step(
        put0(st1, list),
        line0(v.texts[j]),
    ) == Ok::<ComponentsParserView, ParseErrorView>(put0(st1, list.push(v.texts[j]))) by {
        lemma_whole_text(v.texts[j]);
        assert(spec_subcomponent_new(line0(v.texts[j])) is None);
    }
    lemma_run_each(step, put0, st1, Seq::empty(), v.texts, line0);
    assert(put0(st1, Seq::empty()) == st1);
    assert(Seq::<TextView>::empty() + v.texts =~= v.texts);
    let t = v.texts.map_values(line0);
    lemma_run_concat(step, st0, a0, t);
    let proto2 = ComponentPrototypeView { texts: v.texts, ..proto1 };
    let st2 = ComponentsParserView {
        components,
        open: Some(ComponentParserView { open: None, prototype: proto2 }),
    };
    assert(put0(st1, v.texts) == st2);
    let put1 = |s: ComponentsParserView, list: Seq<AttributeView>|
        ComponentsParserView {
            open: Some(
                ComponentParserView {
                    open: None,
                    prototype: ComponentPrototypeView { attributes: list, ..proto2 },
                },
            ),
            ..s
        };
    let line1 = |a: AttributeView| attribute_statement(a);
    assert forall|list: Seq<AttributeView>, j: int|
        0 <= j < v.attributes.len() implies #[trigger] step(
        put1(st2, list),
        line1(v.attributes[j]),
    ) == Ok::<ComponentsParserView, ParseErrorView>(put1(st2, list.push(v.attributes[j]))) by {
        lemma_whole_attribute(v.attributes[j]);
    }
    lemma_run_each(step, put1, st2, Seq::empty(), v.attributes, line1);
    assert(put1(st2, Seq::empty()) == st2);
    assert(Seq::<AttributeView>::empty() + v.attributes =~= v.attributes);
    let a = v.attributes.map_values(line1);
    lemma_run_concat(step, st0, a0 + t, a);
    assert(a0 + t + a =~= component_more_statements(v));
    assert(ComponentPrototypeView { attributes: v.attributes, ..proto2 } == prototype_own(v));
}

/// The statements of a sub-record of a component close the sub-record that
/// is open and leave the sub-record open, as it is.
proof fn lemma_subcomponent_run(state: ComponentsParserView, v: SubComponentView)
    requires
        subcomponent_ok(v),
        state.open is Some,
    ensures
        run(
            |s: ComponentsParserView, kp: KeywordParamView| spec_components_step(s, kp),
            state,
            subcomponent_statements(v),
        ) == Ok::<ComponentsParserView, ParseErrorView>(
            ComponentsParserView {
                open: Some(
                    ComponentParserView {
                        open: Some(v),
                        prototype: spec_component_done(state.open->0),
                    },
                ),
                ..state
            },
        ),
{
    let step = |s: ComponentsParserView, kp: KeywordParamView| spec_components_step(s, kp);
    let prototype = spec_component_done(state.open->0);
    lemma_whole_subcomponent_opener(v);
    lemma_keyword(Keyword::Attribute);
    let opener = subcomponent_opener(v);
    let v0 = subcomponent_with_attributes(v, Seq::empty());
    let st0 = ComponentsParserView {
        open: Some(ComponentParserView { open: Some(v0), prototype }),
        ..state
    };
    lemma_run_one(step, state, opener);
    let a0 = seq![opener];
    assert(run(step, state, a0) == Ok::<ComponentsParserView, ParseErrorView>(st0));
    let put1 = |s: ComponentsParserView, list: Seq<AttributeView>|
        ComponentsParserView {
            open: Some(
                ComponentParserView {
                    open: Some(subcomponent_with_attributes(v, list)),
                    prototype,
                },
            ),
            ..s
        };
    let line1 = |a: AttributeView| attribute_statement(a);
    let attrs = subcomponent_attributes(v);
    assert forall|list: Seq<AttributeView>, j: int| 0 <= j < attrs.len() implies #[trigger] step(
        put1(st0, list),
        line1(attrs[j]),
    ) == Ok::<ComponentsParserView, ParseErrorView>(put1(st0, list.push(attrs[j]))) by {
        lemma_whole_attribute(attrs[j]);
    }
    lemma_run_each(step, put1, st0, Seq::empty(), attrs, line1);
    assert(put1(st0, Seq::empty()) == st0);
    assert(Seq::<AttributeView>::empty() + attrs =~= attrs);
    let attributes = attrs.map_values(line1);
    lemma_run_concat(step, state, a0, attributes);
    assert(a0 + attributes =~= subcomponent_statements(v));
    assert(subcomponent_with_attributes(v, attrs) == v);
}

/// The state of the builder of the section behind the statements of the
/// sub-records `v` of the open component, in which no sub-record was open.
pub open spec fn subcomponents_state(
    state: ComponentsParserView,
    v: Seq<SubComponentView>,
) -> ComponentsParserView {
    if v.len() == 0 {
        state
    } else {
        let prototype = state.open->0.prototype;
        ComponentsParserView {
            open: Some(
                ComponentParserView {
                    open: Some(v.last()),
                    prototype: ComponentPrototypeView {
                        subcomponents: prototype.subcomponents + v.drop_last(),
                        ..prototype
                    },
                },
            ),
            ..state
        }
    }
}

/// The statements of sub-records of a component, one behind the other, are
/// read as the sub-records.
proof fn lemma_subcomponents_run(state: ComponentsParserView, v: Seq<SubComponentView>)
    requires
        state.open matches Some(p) && p.open is None,
        forall|i: int| 0 <= i < v.len() ==> subcomponent_ok(#[trigger] v[i]),
    ensures
        run(
            |s: ComponentsParserView, kp: KeywordParamView| spec_components_step(s, kp),
            state,
            subcomponents_statements(v),
        ) == Ok::<ComponentsParserView, ParseErrorView>(subcomponents_state(state, v)),
    decreases v.len(),
{
    let step = |s: ComponentsParserView, kp: KeywordParamView| spec_components_step(s, kp);
    let lists = v.map_values(|s: SubComponentView| subcomponent_statements(s));
    let prototype = state.open->0.prototype;
    if v.len() == 0 {
        assert(concat_all(lists) =~= Seq::<KeywordParamView>::empty());
    } else {
        let first = v.drop_last();
        assert forall|i: int| 0 <= i < first.len() implies subcomponent_ok(#[trigger] first[i]) by {
            assert(first[i] == v[i]);
        }
        lemma_subcomponents_run(state, first);
        assert(lists.drop_last() =~= first.map_values(
            |s: SubComponentView| subcomponent_statements(s),
        ));
        assert(lists.last() == subcomponent_statements(v.last()));
        assert(subcomponent_ok(v[v.len() - 1]));
        let before = subcomponents_state(state, first);
        lemma_subcomponent_run(before, v.last());
        lemma_run_concat(
            step,
            state,
            concat_all(lists.drop_last()),
            subcomponent_statements(v.last()),
        );
        if first.len() == 0 {
            assert(prototype.subcomponents + v.drop_last() =~= prototype.subcomponents);
        } else {
            assert((prototype.subcomponents + first.drop_last()).push(first.last())
                =~= prototype.subcomponents + v.drop_last());
        }
    }
}

/// The statements of a component close the component that is open, which
/// must be complete, and leave the component open: the builder of the
/// component holds the component, with its last sub-record open.
proof fn lemma_component_run(state: ComponentsParserView, v: ComponentView)
    requires
        component_ok(v),
        spec_components_flushed(state) is Ok,
    ensures
        run(
            |s: ComponentsParserView, kp: KeywordParamView| spec_components_step(s, kp),
            state,
            component_statements(v),
        ) == Ok::<ComponentsParserView, ParseErrorView>(
            ComponentsParserView {
                components: spec_components_flushed(state)->Ok_0,
                open: Some(component_state(v)),
            },
        ),
        spec_to_component(spec_component_done(component_state(v))) == Ok::<
            ComponentView,
            ParseErrorView,
        >(v),
{
    let step = |s: ComponentsParserView, kp: KeywordParamView| spec_components_step(s, kp);
    let components = spec_components_flushed(state)->Ok_0;
    lemma_component_fixed_run(state, v);
    lemma_component_more_run(components, v);
    lemma_run_concat(step, state, component_fixed_statements(v), component_more_statements(v));
    let st1 = ComponentsParserView {
        components,
        open: Some(ComponentParserView { open: None, prototype: prototype_own(v) }),
    };
    lemma_subcomponents_run(st1, v.subcomponents);
    lemma_run_concat(
        step,
        state,
        component_fixed_statements(v) + component_more_statements(v),
        subcomponents_statements(v.subcomponents),
    );
    if v.subcomponents.len() == 0 {
        assert(v.subcomponents =~= Seq::<SubComponentView>::empty());
    } else {
        assert(Seq::<SubComponentView>::empty() + v.subcomponents.drop_last()
            =~= v.subcomponents.drop_last());
        assert(v.subcomponents.drop_last().push(v.subcomponents.last()) =~= v.subcomponents);
    }
}

/// The state of the builder behind the statements of the components `v`.
pub open spec fn components_state(v: Seq<ComponentView>) -> ComponentsParserView {
    if v.len() == 0 {
        spec_components_init()
    } else {
        ComponentsParserView { components: v.drop_last(), open: Some(component_state(v.last())) }
    }
}

/// The statements of components, one component behind the other, are read
/// as the components.
proof fn lemma_components_run(v: Seq<ComponentView>)
    requires
        components_ok(v),
    ensures
        run(
            |s: ComponentsParserView, kp: KeywordParamView| spec_components_step(s, kp),
            spec_components_init(),
            concat_all(v.map_values(|d: ComponentView| component_statements(d))),
        ) == Ok::<ComponentsParserView, ParseErrorView>(components_state(v)),
        spec_components_flushed(components_state(v)) == Ok::<Seq<ComponentView>, ParseErrorView>(
            v,
        ),
    decreases v.len(),
{
    let step = |s: ComponentsParserView, kp: KeywordParamView| spec_components_step(s, kp);
    let init = spec_components_init();
    let lists = v.map_values(|d: ComponentView| component_statements(d));
    if v.len() == 0 {
        assert(concat_all(lists) =~= Seq::<KeywordParamView>::empty());
        assert(v =~= Seq::<ComponentView>::empty());
    } else {
        let first = v.drop_last();
        assert(components_ok(first)) by {
            assert forall|i: int| 0 <= i < first.len() implies component_ok(
                #[trigger] first[i],
            ) by {
                assert(first[i] == v[i]);
            }
        }
        lemma_components_run(first);
        assert(lists.drop_last() =~= first.map_values(|d: ComponentView| component_statements(d)));
        assert(lists.last() == component_statements(v.last()));
        assert(component_ok(v[v.len() - 1]));
        let before = components_state(first);
        lemma_component_run(before, v.last());
        lemma_run_concat(step, init, concat_all(lists.drop_last()), component_statements(v.last()));
        assert(first.push(v.last()) =~= v);
    }
}

/// The `COMPONENTS` section is read back from its text: the text of
/// components that can be written is split into the statements of a section
/// named `COMPONENTS`, and the builder makes the components of them.
pub proof fn lemma_components_round_trip(v: Seq<ComponentView>)
    requires
        components_ok(v),
    ensures
        section_round_trips(components_text(v), ParsedSectionView::Components(v)),
{
    reveal(spec_build_section);
    lemma_section_components();
    let texts = v.map_values(|d: ComponentView| component_text(d));
    let lists = v.map_values(|d: ComponentView| component_statements(d));
    let statements = concat_all(lists);
    lemma_components_run(v);
    lemma_join_wrapped("$COMPONENTS"@, texts, "$ENDCOMPONENTS"@);
    let section = SectionView { name: "COMPONENTS"@, parameters: statements };
    if v.len() == 0 {
        assert(statements =~= Seq::<KeywordParamView>::empty());
        lemma_empty_section_written("COMPONENTS"@);
        assert(components_text(v) =~= "$"@ + "COMPONENTS"@ + crlf() + "$END"@ + "COMPONENTS"@);
    } else {
        assert forall|i: int| 0 <= i < texts.len() implies reads_as(
            #[trigger] texts[i],
            lists[i],
        ) by {
            assert(component_ok(v[i]));
            lemma_component_reads(v[i]);
        }
        lemma_reads_join_lines(texts, lists);
        lemma_section_written("COMPONENTS"@, join_lines(texts), statements);
        assert(components_text(v) =~= section_text("COMPONENTS"@, join_lines(texts)));
    }
    assert(spec_build_section(section) == Ok::<ParsedSectionView, ParseErrorView>(
        ParsedSectionView::Components(v),
    ));
}

} // verus!
