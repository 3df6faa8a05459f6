//! The `PADSTACKS` section.

use vstd::prelude::*;
use vstd::string::*;
use crate::error::{agrees_whole, ParseError, ParseErrorView, SectionKind};
use crate::lex::{lemma_one_line_concat, one_line};
use crate::parser::{KeywordParam, KeywordParamView, SectionView};
use crate::parser::file::{
    lemma_section_padstacks, ParsedSectionView, section_round_trips, spec_build_section,
};
use crate::parser::keyword::{Keyword, lemma_keyword};
use crate::parser::written::{
    concat_all, lemma_reads_each, lemma_reads_empty, lemma_reads_join, lemma_reads_join_lines,
    lemma_reads_keyword_line, lemma_reads_more, lemma_section_written, reads_as, section_text,
};
use crate::sections::{
    attribute_statement, attributes_ok, lemma_reads_attributes, lemma_run_concat, lemma_run_each,
    lemma_run_error, lemma_run_one, lemma_run_step, lemma_whole_attribute, run, unexpected, whole,
};
use crate::serialization::{
    concat, crlf, join, join_lines, lemma_join_four, render_all, ToGencadString,
};
use crate::types::aliases::pad_name;
use crate::types::attrib_ref::{
    attrib_ref, Attribute, attributes_text, AttributeView, spec_attrib_ref,
};
use crate::types::layer::{Layer, layer_text, lemma_layer_text_one_line};
use crate::types::mirror::{lemma_mirror_text_one_line, Mirror, mirror_text};
use crate::types::number::{is_number, lemma_number_one_line, Number};
use crate::types::string::{
    is_writable, lemma_string_one_line, lemma_string_round_trip, spec_string, string_text,
};
use crate::types::text_par::{
    lemma_sp_layer_round_trip, lemma_sp_mirror_round_trip, sp_layer, sp_mirror, spec_sp_layer,
    spec_sp_mirror,
};
use crate::types::x_y_ref::{lemma_sp_number_round_trip, sp_number, spec_sp_number};

verus! {

/// A single pad within a [`Padstack`]. All pads in a stack share the same origin.
#[derive(Debug, Clone, PartialEq, Eq)]
pub struct Pad {
    /// The name of the pad, referencing a definition in the `PADS` section.
    pub name: String,
    /// The board layer on which the pad is placed.
    pub layer: Layer,
    /// The rotation angle in degrees, counter-clockwise, applied after any mirroring.
    pub rotation: Number,
    /// The mirror state of the pad (applied before rotation).
    pub mirror: Mirror,
}

/// The mathematical content of a [`Pad`] of a stack.
pub ghost struct StackedPadView {
    pub name: Seq<char>,
    pub layer: Layer,
    pub rotation: Seq<char>,
    pub mirror: Mirror,
}

impl DeepView for Pad {
    type V = StackedPadView;

    open spec fn deep_view(&self) -> StackedPadView {
        StackedPadView {
            name: self.name@,
            layer: self.layer,
            rotation: self.rotation.deep_view(),
            mirror: self.mirror,
        }
    }
}

/// A collection of pads arranged to form a single logical pad stack.
#[derive(Debug, Clone, PartialEq, Eq)]
pub struct Padstack {
    /// A unique name for this pad stack.
    pub name: String,
    /// The drill hole size for the entire stack: `0` means no hole, `-1`
    /// undefined, `-2` the drill size of the first pad in the stack.
    pub drill_size: Number,
    /// The list of pads in this stack. All pads share the same origin.
    pub pads: Vec<Pad>,
}

/// The mathematical content of a [`Padstack`].
pub ghost struct PadstackView {
    pub name: Seq<char>,
    pub drill_size: Seq<char>,
    pub pads: Seq<StackedPadView>,
}

impl DeepView for Padstack {
    type V = PadstackView;

    open spec fn deep_view(&self) -> PadstackView {
        PadstackView {
            name: self.name@,
            drill_size: self.drill_size.deep_view(),
            pads: self.pads.deep_view(),
        }
    }
}

/// Represents the optional `PADSTACKS` section of a GenCAD file.
#[derive(Debug, Clone, PartialEq, Eq)]
pub struct Padstacks {
    /// All defined pad stacks in the section.
    pub padstacks: Vec<Padstack>,
    /// Additional metadata associated with the `PADSTACKS` section.
    pub attributes: Vec<Attribute>,
}

/// The mathematical content of a [`Padstacks`].
pub ghost struct PadstacksView {
    pub padstacks: Seq<PadstackView>,
    pub attributes: Seq<AttributeView>,
}

impl DeepView for Padstacks {
    type V = PadstacksView;

    open spec fn deep_view(&self) -> PadstacksView {
        PadstacksView {
            padstacks: self.padstacks.deep_view(),
            attributes: self.attributes.deep_view(),
        }
    }
}

/// The pad that a `PAD` line of a stack describes: name, layer, rotation and
/// mirror state.
pub open spec fn spec_stacked_pad(params: Seq<char>) -> Result<StackedPadView, ParseErrorView> {
    match spec_string(params) {
        Err(e) => Err(e),
        Ok((s1, name)) => match spec_sp_layer(s1) {
            Err(e) => Err(e),
            Ok((s2, layer)) => match spec_sp_number(s2) {
                Err(e) => Err(e),
                Ok((s3, rotation)) => match spec_sp_mirror(s3) {
                    Err(e) => Err(e),
                    Ok((_, mirror)) => Ok(StackedPadView { name, layer, rotation, mirror }),
                },
            },
        },
    }
}

/// The stack that a `PADSTACK` line opens: name and drill size, no pads yet.
pub open spec fn spec_padstack_new(params: Seq<char>) -> Result<PadstackView, ParseErrorView> {
    match spec_string(params) {
        Err(e) => Err(e),
        Ok((s1, name)) => match spec_sp_number(s1) {
            Err(e) => Err(e),
            Ok((_, drill_size)) => Ok(PadstackView { name, drill_size, pads: Seq::empty() }),
        },
    }
}

/// The stack `stack` after the line `kp`.
pub open spec fn spec_padstack_update(stack: PadstackView, kp: KeywordParamView) -> Result<
    PadstackView,
    ParseErrorView,
> {
    match Keyword::spec_of(kp.keyword) {
        Keyword::Pad => match spec_stacked_pad(kp.parameter) {
            Ok(pad) => Ok(PadstackView { pads: stack.pads.push(pad), ..stack }),
            Err(e) => Err(e),
        },
        _ => Err(
            ParseErrorView::UnexpectedKeyword {
                section: SectionKind::Padstacks,
                keyword: kp.keyword,
            },
        ),
    }
}

/// The state of the builder of the section: the stacks that are complete,
/// the one that is open, and the attributes of the section.
pub ghost struct PadstacksParserView {
    pub padstacks: Seq<PadstackView>,
    pub open: Option<PadstackView>,
    pub attributes: Seq<AttributeView>,
}

/// The builder before the first line.
pub open spec fn spec_padstacks_init() -> PadstacksParserView {
    PadstacksParserView { padstacks: Seq::empty(), open: None, attributes: Seq::empty() }
}

/// The stacks of `state` with the open one closed.
pub open spec fn spec_padstacks_flushed(state: PadstacksParserView) -> Seq<PadstackView> {
    match state.open {
        Some(stack) => state.padstacks.push(stack),
        None => state.padstacks,
    }
}

/// The state of the builder after the line `kp`. Attributes belong to the
/// section, whether a stack is open or not.
pub open spec fn spec_padstacks_step(state: PadstacksParserView, kp: KeywordParamView) -> Result<
    PadstacksParserView,
    ParseErrorView,
> {
    match Keyword::spec_of(kp.keyword) {
        Keyword::Padstack => match spec_padstack_new(kp.parameter) {
            Ok(stack) => Ok(
                PadstacksParserView {
                    padstacks: spec_padstacks_flushed(state),
                    open: Some(stack),
                    ..state
                },
            ),
            Err(e) => Err(e),
        },
        Keyword::Attribute => match whole(spec_attrib_ref(kp.parameter)) {
            Ok(a) => Ok(PadstacksParserView { attributes: state.attributes.push(a), ..state }),
            Err(e) => Err(e),
        },
        _ => match state.open {
            Some(stack) => match spec_padstack_update(stack, kp) {
                Ok(stack) => Ok(PadstacksParserView { open: Some(stack), ..state }),
                Err(e) => Err(e),
            },
            None => Err(
                ParseErrorView::UnexpectedKeyword {
                    section: SectionKind::Padstacks,
                    keyword: kp.keyword,
                },
            ),
        },
    }
}

/// The section that the builder `state` has collected.
pub open spec fn spec_padstacks_finalize(state: PadstacksParserView) -> PadstacksView {
    PadstacksView { padstacks: spec_padstacks_flushed(state), attributes: state.attributes }
}

/// The stacks that the lines of a `PADSTACKS` section describe.
pub open spec fn spec_parse_padstacks(lines: Seq<KeywordParamView>) -> Result<
    PadstacksView,
    ParseErrorView,
> {
    match run(
        |s: PadstacksParserView, kp: KeywordParamView| spec_padstacks_step(s, kp),
        spec_padstacks_init(),
        lines,
    ) {
        Ok(state) => Ok(spec_padstacks_finalize(state)),
        Err(e) => Err(e),
    }
}

impl Pad {
    /// Decodes the parameter of a `PAD` line of a stack.
    pub fn from_parameters(params: &str) -> (r: Result<Pad, ParseError>)
        ensures
            agrees_whole(r, spec_stacked_pad(params@)),
    {
        let (s1, name) = pad_name(params)?;
        let (s2, layer) = sp_layer(s1)?;
        let (s3, rotation) = sp_number(s2)?;
        let (_, mirror) = sp_mirror(s3)?;
        Ok(Pad { name, layer, rotation, mirror })
    }
}

impl Padstack {
    /// Opens the stack that the parameter of a `PADSTACK` line describes.
    pub fn from_parameters(params: &str) -> (r: Result<Padstack, ParseError>)
        ensures
            agrees_whole(r, spec_padstack_new(params@)),
    {
        let (s1, name) = pad_name(params)?;
        let (_, drill_size) = sp_number(s1)?;
        let r = Padstack { name, drill_size, pads: Vec::new() };
        assert(r.pads.deep_view() =~= Seq::empty());
        Ok(r)
    }

    /// Applies the line `kp` to the stack. On an error the stack is as before.
    pub fn update(&mut self, kp: &KeywordParam) -> (r: Result<(), ParseError>)
        ensures
            match r {
                Ok(_) => spec_padstack_update(old(self).deep_view(), kp.deep_view()) == Ok::<
                    PadstackView,
                    ParseErrorView,
                >(final(self).deep_view()),
                Err(e) => spec_padstack_update(old(self).deep_view(), kp.deep_view()) == Err::<
                    PadstackView,
                    ParseErrorView,
                >(e.deep_view()) && *final(self) == *old(self),
            },
    {
        match Keyword::of(kp.keyword) {
            Keyword::Pad => {
                let pad = Pad::from_parameters(kp.parameter)?;
                let ghost before = self.pads.deep_view();
                self.pads.push(pad);
                assert(self.pads.deep_view() =~= before.push(pad.deep_view()));
                Ok(())
            },
            _ => Err(unexpected(SectionKind::Padstacks, kp.keyword)),
        }
    }
}

/// The builder of the `PADSTACKS` section.
#[derive(Debug, Clone, PartialEq, Eq)]
pub struct PadstacksParser {
    /// The stack that is open.
    pub state: Option<Padstack>,
    /// The stacks that are complete.
    pub padstacks: Vec<Padstack>,
    /// The attributes of the section.
    pub attributes: Vec<Attribute>,
}

impl DeepView for PadstacksParser {
    type V = PadstacksParserView;

    open spec fn deep_view(&self) -> PadstacksParserView {
        PadstacksParserView {
            padstacks: self.padstacks.deep_view(),
            open: self.state.deep_view(),
            attributes: self.attributes.deep_view(),
        }
    }
}

impl PadstacksParser {
    /// The builder before the first line.
    pub fn new() -> (r: PadstacksParser)
        ensures
            r.deep_view() == spec_padstacks_init(),
    {
        let r = PadstacksParser { state: None, padstacks: Vec::new(), attributes: Vec::new() };
        assert(r.padstacks.deep_view() =~= Seq::empty());
        assert(r.attributes.deep_view() =~= Seq::empty());
        r
    }

    /// Takes in the line `kp`. On an error the builder is as before.
    pub fn ingest(&mut self, kp: &KeywordParam) -> (r: Result<(), ParseError>)
        ensures
            match r {
                Ok(_) => spec_padstacks_step(old(self).deep_view(), kp.deep_view()) == Ok::<
                    PadstacksParserView,
                    ParseErrorView,
                >(final(self).deep_view()),
                Err(e) => spec_padstacks_step(old(self).deep_view(), kp.deep_view()) == Err::<
                    PadstacksParserView,
                    ParseErrorView,
                >(e.deep_view()) && final(self).deep_view() == old(self).deep_view(),
            },
    {
        match Keyword::of(kp.keyword) {
            Keyword::Padstack => {
                let stack = Padstack::from_parameters(kp.parameter)?;
                if let Some(done) = self.state.take() {
                    let ghost before = self.padstacks.deep_view();
                    self.padstacks.push(done);
                    assert(self.padstacks.deep_view() =~= before.push(done.deep_view()));
                }
                self.state = Some(stack);
                Ok(())
            },
            Keyword::Attribute => {
                let (_, attribute) = attrib_ref(kp.parameter)?;
                let ghost before = self.attributes.deep_view();
                self.attributes.push(attribute);
                assert(self.attributes.deep_view() =~= before.push(attribute.deep_view()));
                Ok(())
            },
            _ => match self.state.take() {
                Some(mut stack) => {
                    let r = stack.update(kp);
                    self.state = Some(stack);
                    r
                },
                None => Err(unexpected(SectionKind::Padstacks, kp.keyword)),
            },
        }
    }

    /// Closes the open stack and hands out the section.
    pub fn finalize(self) -> (r: Result<Padstacks, ParseError>)
        ensures
            r matches Ok(p) && p.deep_view() == spec_padstacks_finalize(self.deep_view()),
    {
        let mut padstacks = self.padstacks;
        if let Some(stack) = self.state {
            let ghost before = padstacks.deep_view();
            padstacks.push(stack);
            assert(padstacks.deep_view() =~= before.push(stack.deep_view()));
        }
        Ok(Padstacks { padstacks, attributes: self.attributes })
    }
}

impl Padstacks {
    /// Builds the section from the lines of a `PADSTACKS` section.
    pub fn new(params: &[KeywordParam]) -> (r: Result<Padstacks, ParseError>)
        ensures
            agrees_whole(r, spec_parse_padstacks(params.deep_view())),
    {
        let ghost step = |s: PadstacksParserView, kp: KeywordParamView| spec_padstacks_step(s, kp);
        let ghost lines = params.deep_view();
        let mut p = PadstacksParser::new();
        let mut i: usize = 0;
        while i < params.len()
            invariant
                0 <= i <= params.len(),
                lines == params.deep_view(),
                step == |s: PadstacksParserView, kp: KeywordParamView| spec_padstacks_step(s, kp),
                run(step, spec_padstacks_init(), lines.take(i as int)) == Ok::<
                    PadstacksParserView,
                    ParseErrorView,
                >(p.deep_view()),
            decreases params.len() - i,
        {
            proof {
                lemma_run_step(step, spec_padstacks_init(), lines, i as int);
                lemma_run_error(step, spec_padstacks_init(), lines, i as int + 1);
                assert(lines[i as int] == params[i as int].deep_view());
            }
            p.ingest(&params[i])?;
            i += 1;
        }
        assert(lines.take(i as int) == lines);
        p.finalize()
    }
}

/// The line of a pad of a stack.
pub open spec fn stacked_pad_line(v: StackedPadView) -> Seq<char> {
    "PAD "@ + string_text(v.name) + " "@ + layer_text(v.layer) + " "@ + v.rotation + " "@
        + mirror_text(v.mirror)
}

/// The lines of a stack: its opening line and its pads.
pub open spec fn padstack_text(v: PadstackView) -> Seq<char> {
    join_lines(
        seq![
            "PADSTACK "@ + string_text(v.name) + " "@ + v.drill_size,
            join_lines(v.pads.map_values(|p: StackedPadView| stacked_pad_line(p))),
        ],
    )
}

/// The text of the `PADSTACKS` section: the opening line, the stacks, the
/// attributes of the section, the closing line.
pub open spec fn padstacks_text(v: PadstacksView) -> Seq<char> {
    join_lines(
        seq![
            "$PADSTACKS"@,
            join_lines(v.padstacks.map_values(|p: PadstackView| padstack_text(p))),
            attributes_text(v.attributes),
            "$ENDPADSTACKS"@,
        ],
    )
}

impl ToGencadString for Pad {
    open spec fn gencad(&self) -> Seq<char> {
        stacked_pad_line(self.deep_view())
    }

    fn to_gencad_string(&self) -> (r: String) {
        let mut out = concat("PAD ", self.name.to_gencad_string().as_str());
        out.append(" ");
        out.append(self.layer.to_gencad_string().as_str());
        out.append(" ");
        out.append(self.rotation.as_str());
        out.append(" ");
        out.append(self.mirror.to_gencad_string().as_str());
        out
    }
}

impl ToGencadString for Padstack {
    open spec fn gencad(&self) -> Seq<char> {
        padstack_text(self.deep_view())
    }

    fn to_gencad_string(&self) -> (r: String) {
        let mut head = concat("PADSTACK ", self.name.to_gencad_string().as_str());
        head.append(" ");
        head.append(self.drill_size.as_str());
        let pads = render_all(&self.pads);
        assert(pads.deep_view() =~= self.pads.deep_view().map_values(
            |p: StackedPadView| stacked_pad_line(p),
        ));
        let mut lines: Vec<String> = Vec::new();
        lines.push(head);
        lines.push(join(&pads));
        assert(lines.deep_view() =~= seq![
            head@,
            join_lines(self.pads.deep_view().map_values(|p: StackedPadView| stacked_pad_line(p))),
        ]);
        join(&lines)
    }
}

impl ToGencadString for Padstacks {
    open spec fn gencad(&self) -> Seq<char> {
        padstacks_text(self.deep_view())
    }

    fn to_gencad_string(&self) -> (r: String) {
        let stacks = render_all(&self.padstacks);
        assert(stacks.deep_view() =~= self.padstacks.deep_view().map_values(
            |p: PadstackView| padstack_text(p),
        ));
        let mut lines: Vec<String> = Vec::new();
        lines.push(String::from_str("$PADSTACKS"));
        lines.push(join(&stacks));
        lines.push(self.attributes.to_gencad_string());
        lines.push(String::from_str("$ENDPADSTACKS"));
        assert(lines.deep_view() =~= seq![
            "$PADSTACKS"@,
            join_lines(
                self.padstacks.deep_view().map_values(|p: PadstackView| padstack_text(p)),
            ),
            attributes_text(self.attributes.deep_view()),
            "$ENDPADSTACKS"@,
        ]);
        join(&lines)
    }
}

/// Whether the pad `v` of a stack can be written and read back.
pub open spec fn stacked_pad_ok(v: StackedPadView) -> bool {
    is_writable(v.name) && is_number(v.rotation)
}

/// Whether the stack `v` can be written and read back.
pub open spec fn padstack_ok(v: PadstackView) -> bool {
    &&& is_writable(v.name)
    &&& is_number(v.drill_size)
    &&& forall|i: int| 0 <= i < v.pads.len() ==> stacked_pad_ok(#[trigger] v.pads[i])
}

/// Whether the section `v` can be written and read back.
pub open spec fn padstacks_ok(v: PadstacksView) -> bool {
    &&& forall|i: int| 0 <= i < v.padstacks.len() ==> padstack_ok(#[trigger] v.padstacks[i])
    &&& attributes_ok(v.attributes)
}

/// The parameter of the line of a pad of a stack.
pub open spec fn stacked_pad_parameter(v: StackedPadView) -> Seq<char> {
    string_text(v.name) + " "@ + layer_text(v.layer) + " "@ + v.rotation + " "@ + mirror_text(
        v.mirror,
    )
}

/// The statement of a pad of a stack.
pub open spec fn stacked_pad_statement(v: StackedPadView) -> KeywordParamView {
    KeywordParamView { keyword: "PAD"@, parameter: stacked_pad_parameter(v) }
}

/// The parameter of the opening line of a stack.
pub open spec fn padstack_parameter(v: PadstackView) -> Seq<char> {
    string_text(v.name) + " "@ + v.drill_size
}

/// The statements of a stack, in the order of its lines.
pub open spec fn padstack_statements(v: PadstackView) -> Seq<KeywordParamView> {
    seq![KeywordParamView { keyword: "PADSTACK"@, parameter: padstack_parameter(v) }]
        + v.pads.map_values(|p: StackedPadView| stacked_pad_statement(p))
}

/// The line of a pad of a stack is read back.
proof fn lemma_whole_stacked_pad(v: StackedPadView)
    requires
        stacked_pad_ok(v),
    ensures
        spec_stacked_pad(stacked_pad_parameter(v)) == Ok::<StackedPadView, ParseErrorView>(v),
        one_line(stacked_pad_parameter(v)),
        reads_as(stacked_pad_line(v), seq![stacked_pad_statement(v)]),
{
    reveal_strlit(" ");
    let none = Seq::<char>::empty();
    let tail3 = " "@ + (mirror_text(v.mirror) + none);
    let tail2 = " "@ + (v.rotation + tail3);
    let tail1 = " "@ + (layer_text(v.layer) + tail2);
    lemma_sp_mirror_round_trip(v.mirror, none);
    lemma_sp_number_round_trip(v.rotation, tail3);
    lemma_sp_layer_round_trip(v.layer, tail2);
    lemma_string_round_trip(v.name, tail1);
    assert(stacked_pad_parameter(v) =~= string_text(v.name) + tail1);
    lemma_string_one_line(v.name);
    lemma_layer_text_one_line(v.layer);
    lemma_number_one_line(v.rotation);
    lemma_mirror_text_one_line(v.mirror);
    lemma_one_line_concat(string_text(v.name), " "@);
    lemma_one_line_concat(string_text(v.name) + " "@, layer_text(v.layer));
    lemma_one_line_concat(string_text(v.name) + " "@ + layer_text(v.layer), " "@);
    lemma_one_line_concat(string_text(v.name) + " "@ + layer_text(v.layer) + " "@, v.rotation);
    lemma_one_line_concat(string_text(v.name) + " "@ + layer_text(v.layer) + " "@ + v.rotation, " "@);
    lemma_one_line_concat(string_text(v.name) + " "@ + layer_text(v.layer) + " "@ + v.rotation + " "@, mirror_text(v.mirror));
    reveal_strlit("PAD ");
    reveal_strlit("PAD");
    assert("PAD "@ =~= "PAD"@ + " "@);
    lemma_keyword(Keyword::Pad);
    lemma_reads_keyword_line("PAD "@, "PAD"@, stacked_pad_parameter(v));
    assert(stacked_pad_line(v) =~= "PAD "@ + stacked_pad_parameter(v));
}

/// The opening line of a stack is read back.
proof fn lemma_whole_padstack(v: PadstackView)
    requires
        padstack_ok(v),
    ensures
        spec_padstack_new(padstack_parameter(v)) == Ok::<PadstackView, ParseErrorView>(
            PadstackView { pads: Seq::empty(), ..v },
        ),
        one_line(padstack_parameter(v)),
{
    reveal_strlit(" ");
    let none = Seq::<char>::empty();
    let tail1 = " "@ + (v.drill_size + none);
    lemma_sp_number_round_trip(v.drill_size, none);
    lemma_string_round_trip(v.name, tail1);
    assert(padstack_parameter(v) =~= string_text(v.name) + tail1);
    lemma_string_one_line(v.name);
    lemma_number_one_line(v.drill_size);
    lemma_one_line_concat(string_text(v.name), " "@);
    lemma_one_line_concat(string_text(v.name) + " "@, v.drill_size);
}

/// The text of a stack is read as its statements.
proof fn lemma_padstack_reads(v: PadstackView)
    requires
        padstack_ok(v),
    ensures
        reads_as(padstack_text(v), padstack_statements(v)),
{
    reveal_strlit(" ");
    reveal_strlit("PADSTACK ");
    reveal_strlit("PADSTACK");
    assert("PADSTACK "@ =~= "PADSTACK"@ + " "@);
    lemma_keyword(Keyword::Padstack);
    lemma_whole_padstack(v);
    lemma_reads_empty();
    let none = Seq::<Seq<char>>::empty();
    assert(join_lines(none) =~= Seq::<char>::empty());
    let head = KeywordParamView { keyword: "PADSTACK"@, parameter: padstack_parameter(v) };
    lemma_reads_keyword_line("PADSTACK "@, "PADSTACK"@, padstack_parameter(v));
    lemma_reads_more(none, Seq::empty(), "PADSTACK "@ + padstack_parameter(v), seq![head]);
    let t0 = none.push("PADSTACK "@ + padstack_parameter(v));
    let s0 = Seq::<KeywordParamView>::empty() + seq![head];
    assert forall|i: int| 0 <= i < v.pads.len() implies reads_as(
        stacked_pad_line(#[trigger] v.pads[i]),
        seq![stacked_pad_statement(v.pads[i])],
    ) by {
        lemma_whole_stacked_pad(v.pads[i]);
    }
    lemma_reads_each(
        v.pads,
        |p: StackedPadView| stacked_pad_line(p),
        |p: StackedPadView| stacked_pad_statement(p),
    );
    let p = v.pads.map_values(|p: StackedPadView| stacked_pad_statement(p));
    let body = join_lines(v.pads.map_values(|p: StackedPadView| stacked_pad_line(p)));
    lemma_reads_more(t0, s0, body, p);
    assert("PADSTACK "@ + padstack_parameter(v) =~= "PADSTACK "@ + string_text(v.name) + " "@
        + v.drill_size);
    assert(t0.push(body) =~= seq!["PADSTACK "@ + string_text(v.name) + " "@ + v.drill_size, body]);
    assert(s0 + p =~= padstack_statements(v));
}

/// The statements of a stack close the stack that is open and leave the
/// stack open, as it is.
proof fn lemma_padstack_run(state: PadstacksParserView, v: PadstackView)
    requires
        padstack_ok(v),
    ensures
        run(
            |s: PadstacksParserView, kp: KeywordParamView| spec_padstacks_step(s, kp),
            state,
            padstack_statements(v),
        ) == Ok::<PadstacksParserView, ParseErrorView>(
            PadstacksParserView {
                padstacks: spec_padstacks_flushed(state),
                open: Some(v),
                ..state
            },
        ),
{
    let step = |s: PadstacksParserView, kp: KeywordParamView| spec_padstacks_step(s, kp);
    lemma_keyword(Keyword::Padstack);
    lemma_keyword(Keyword::Pad);
    lemma_whole_padstack(v);
    let d0 = PadstackView { pads: Seq::empty(), ..v };
    let st0 = PadstacksParserView {
        padstacks: spec_padstacks_flushed(state),
        open: Some(d0),
        ..state
    };
    let head = KeywordParamView { keyword: "PADSTACK"@, parameter: padstack_parameter(v) };
    lemma_run_one(step, state, head);
    let a0 = seq![head];
    assert(run(step, state, a0) == Ok::<PadstacksParserView, ParseErrorView>(st0));
    let put0 = |s: PadstacksParserView, list: Seq<StackedPadView>|
        PadstacksParserView { open: Some(PadstackView { pads: list, ..s.open->0 }), ..s };
    let line0 = |p: StackedPadView| stacked_pad_statement(p);
    assert forall|list: Seq<StackedPadView>, j: int| 0 <= j < v.pads.len() implies #[trigger] step(
        put0(st0, list),
        line0(v.pads[j]),
    ) == Ok::<PadstacksParserView, ParseErrorView>(put0(st0, list.push(v.pads[j]))) by {
        lemma_whole_stacked_pad(v.pads[j]);
    }
    lemma_run_each(step, put0, st0, Seq::empty(), v.pads, line0);
    assert(put0(st0, Seq::empty()) == st0);
    assert(Seq::<StackedPadView>::empty() + v.pads =~= v.pads);
    let p = v.pads.map_values(line0);
    lemma_run_concat(step, state, a0, p);
    assert(a0 + p =~= padstack_statements(v));
    assert(PadstackView { pads: v.pads, ..d0 } == v);
}

/// The statements of the stacks `v`, one stack behind the other.
pub open spec fn padstacks_statements(v: Seq<PadstackView>) -> Seq<KeywordParamView> {
    concat_all(v.map_values(|d: PadstackView| padstack_statements(d)))
}

/// The state of the builder behind the statements of the stacks `v`.
pub open spec fn padstacks_state(v: Seq<PadstackView>) -> PadstacksParserView {
    if v.len() == 0 {
        spec_padstacks_init()
    } else {
        PadstacksParserView {
            padstacks: v.drop_last(),
            open: Some(v.last()),
            attributes: Seq::empty(),
        }
    }
}

/// The statements of stacks, one stack behind the other, are read as the stacks.
proof fn lemma_padstacks_run(v: Seq<PadstackView>)
    requires
        forall|i: int| 0 <= i < v.len() ==> padstack_ok(#[trigger] v[i]),
    ensures
        run(
            |s: PadstacksParserView, kp: KeywordParamView| spec_padstacks_step(s, kp),
            spec_padstacks_init(),
            padstacks_statements(v),
        ) == Ok::<PadstacksParserView, ParseErrorView>(padstacks_state(v)),
        spec_padstacks_flushed(padstacks_state(v)) == v,
    decreases v.len(),
{
    let step = |s: PadstacksParserView, kp: KeywordParamView| spec_padstacks_step(s, kp);
    let init = spec_padstacks_init();
    let lists = v.map_values(|d: PadstackView| padstack_statements(d));
    if v.len() == 0 {
        assert(concat_all(lists) =~= Seq::<KeywordParamView>::empty());
        assert(spec_padstacks_flushed(padstacks_state(v)) =~= v);
    } else {
        let first = v.drop_last();
        assert forall|i: int| 0 <= i < first.len() implies padstack_ok(#[trigger] first[i]) by {
            assert(first[i] == v[i]);
        }
        lemma_padstacks_run(first);
        assert(lists.drop_last() =~= first.map_values(|d: PadstackView| padstack_statements(d)));
        assert(lists.last() == padstack_statements(v.last()));
        assert(padstack_ok(v[v.len() - 1]));
        let before = padstacks_state(first);
        lemma_padstack_run(before, v.last());
        lemma_run_concat(step, init, concat_all(lists.drop_last()), padstack_statements(v.last()));
        assert(spec_padstacks_flushed(before) == first);
        assert(first.push(v.last()) =~= v);
    }
}

/// The `PADSTACKS` section is read back from its text: the text of a
/// section that can be written is split into the statements of a section
/// named `PADSTACKS`, and the builder makes the section of them.
pub proof fn lemma_padstacks_round_trip(v: PadstacksView)
    requires
        padstacks_ok(v),
    ensures
        section_round_trips(padstacks_text(v), ParsedSectionView::Padstacks(v)),
{
    reveal(spec_build_section);
    lemma_section_padstacks();
    lemma_keyword(Keyword::Attribute);
    let step = |s: PadstacksParserView, kp: KeywordParamView| spec_padstacks_step(s, kp);
    let texts = v.padstacks.map_values(|d: PadstackView| padstack_text(d));
    let lists = v.padstacks.map_values(|d: PadstackView| padstack_statements(d));
    let stacks = padstacks_statements(v.padstacks);
    let attributes = v.attributes.map_values(|a: AttributeView| attribute_statement(a));
    lemma_padstacks_run(v.padstacks);
    assert forall|i: int| 0 <= i < texts.len() implies reads_as(#[trigger] texts[i], lists[i]) by {
        assert(padstack_ok(v.padstacks[i]));
        lemma_padstack_reads(v.padstacks[i]);
    }
    lemma_reads_join_lines(texts, lists);
    lemma_reads_attributes(v.attributes);
    lemma_reads_join(join_lines(texts), stacks, attributes_text(v.attributes), attributes);
    let body = join_lines(texts) + crlf() + attributes_text(v.attributes);
    lemma_section_written("PADSTACKS"@, body, stacks + attributes);
    lemma_join_four("$PADSTACKS"@, join_lines(texts), attributes_text(v.attributes), "$ENDPADSTACKS"@);
    assert(padstacks_text(v) =~= section_text("PADSTACKS"@, body));
    let mid = padstacks_state(v.padstacks);
    let put = |s: PadstacksParserView, list: Seq<AttributeView>|
        PadstacksParserView { attributes: list, ..s };
    let line = |a: AttributeView| attribute_statement(a);
    assert forall|list: Seq<AttributeView>, j: int|
        0 <= j < v.attributes.len() implies #[trigger] step(put(mid, list), line(v.attributes[j]))
        == Ok::<PadstacksParserView, ParseErrorView>(put(mid, list.push(v.attributes[j]))) by {
        lemma_whole_attribute(v.attributes[j]);
    }
    lemma_run_each(step, put, mid, Seq::empty(), v.attributes, line);
    assert(put(mid, Seq::empty()) == mid);
    assert(Seq::<AttributeView>::empty() + v.attributes =~= v.attributes);
    lemma_run_concat(step, spec_padstacks_init(), stacks, attributes);
    let end = put(mid, v.attributes);
    assert(spec_padstacks_flushed(end) == spec_padstacks_flushed(mid));
    assert(spec_padstacks_finalize(end) == v);
    let section = SectionView { name: "PADSTACKS"@, parameters: stacks + attributes };
    assert(spec_build_section(section) == Ok::<ParsedSectionView, ParseErrorView>(
        ParsedSectionView::Padstacks(v),
    ));
}

} // verus!
