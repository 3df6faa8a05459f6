//! The `SIGNALS` section.

use vstd::prelude::*;
use vstd::string::*;
use crate::error::{agrees_whole, ParseError, ParseErrorView, SectionKind};
use crate::lex::lemma_one_line_concat;
use crate::parser::{KeywordParam, KeywordParamView, SectionView};
use crate::parser::file::{
    lemma_section_signals, ParsedSectionView, section_round_trips, spec_build_section,
};
use crate::parser::keyword::{Keyword, lemma_keyword};
use crate::parser::written::{
    concat_all, lemma_reads_each, lemma_reads_empty, lemma_reads_join, lemma_reads_join_lines,
    lemma_reads_keyword_line, lemma_reads_more, lemma_section_written, reads_as, section_text,
};
use crate::sections::{
    attribute_statement, attributes_ok, lemma_reads_attributes, lemma_run_concat, lemma_run_each,
    lemma_run_error, lemma_run_one, lemma_run_step, lemma_whole_attribute, lemma_whole_string, run,
    unexpected, whole,
};
use crate::serialization::{
    concat, crlf, join, join_lines, lemma_join_four, render_all, ToGencadString,
};
use crate::types::aliases::{component_name, sig_name};
use crate::types::attrib_ref::{
    attrib_ref, Attribute, attributes_text, AttributeView, lemma_sp_string_round_trip, sp_string,
    spec_attrib_ref, spec_sp_string,
};
use crate::types::layer::{Layer, layer_text, lemma_layer_text_one_line};
use crate::types::string::{
    is_writable, lemma_string_one_line, lemma_string_round_trip, spec_string, string_text,
};
use crate::types::text_par::{lemma_sp_layer_round_trip, sp_layer, spec_sp_layer};
use crate::types::x_y_ref::{
    lemma_sp_x_y_round_trip, lemma_x_y_one_line, sp_x_y_ref, spec_sp_x_y_ref, x_y_ok, x_y_text,
    XYRef, XYRefView,
};

verus! {

/// A connection point on a component, defined by its component and pin names.
#[derive(Debug, Clone, PartialEq, Eq)]
pub struct Node {
    /// The name of the component as defined in the `COMPONENTS` section.
    pub component_name: String,
    /// The name of the pin as defined in the `SHAPES` section.
    pub pin_name: String,
}

/// The mathematical content of a [`Node`].
pub ghost struct NodeView {
    pub component_name: Seq<char>,
    pub pin_name: Seq<char>,
}

impl DeepView for Node {
    type V = NodeView;

    open spec fn deep_view(&self) -> NodeView {
        NodeView { component_name: self.component_name@, pin_name: self.pin_name@ }
    }
}

/// A preferred test point location for a signal, used in bed-of-nails testing.
#[derive(Debug, Clone, PartialEq, Eq)]
pub struct NailLoc {
    /// The name of the component as defined in the `COMPONENTS` section.
    pub component_name: String,
    /// The name of the pin as defined in the `SHAPES` section.
    pub pin_name: String,
    /// The test pin name. "-1" if no unique name is assigned.
    pub tp_name: String,
    /// The absolute coordinate of the nail location.
    pub xy: XYRef,
    /// Tester Assigned Number. "-1" if undefined.
    pub tan: String,
    /// Tester Interface Name. "-1" if undefined.
    pub tin: String,
    /// Probe type (e.g., "100T", "75C"). "-1" if undefined.
    pub probe: String,
    /// The layer on which the probe is applied.
    pub layer: Layer,
}

/// The mathematical content of a [`NailLoc`].
pub ghost struct NailLocView {
    pub component_name: Seq<char>,
    pub pin_name: Seq<char>,
    pub tp_name: Seq<char>,
    pub xy: XYRefView,
    pub tan: Seq<char>,
    pub tin: Seq<char>,
    pub probe: Seq<char>,
    pub layer: Layer,
}

impl DeepView for NailLoc {
    type V = NailLocView;

    open spec fn deep_view(&self) -> NailLocView {
        NailLocView {
            component_name: self.component_name@,
            pin_name: self.pin_name@,
            tp_name: self.tp_name@,
            xy: self.xy.deep_view(),
            tan: self.tan@,
            tin: self.tin@,
            probe: self.probe@,
            layer: self.layer,
        }
    }
}

/// A signal or net defined in the `SIGNALS` section, representing electrical connectivity.
#[derive(Debug, Clone, PartialEq, Eq)]
pub struct Signal {
    /// The unique name of the signal or net.
    pub name: String,
    /// The connections to components and pins.
    pub nodes: Vec<Node>,
    /// The preferred test point locations for this signal.
    pub nail_locations: Vec<NailLoc>,
}

/// The mathematical content of a [`Signal`].
pub ghost struct SignalView {
    pub name: Seq<char>,
    pub nodes: Seq<NodeView>,
    pub nail_locations: Seq<NailLocView>,
}

impl DeepView for Signal {
    type V = SignalView;

    open spec fn deep_view(&self) -> SignalView {
        SignalView {
            name: self.name@,
            nodes: self.nodes.deep_view(),
            nail_locations: self.nail_locations.deep_view(),
        }
    }
}

/// Represents the `SIGNALS` section of a GenCAD file, defining all connectivity information.
#[derive(Debug, Clone, PartialEq, Eq)]
pub struct Signals {
    /// A list of all defined signals and their connections.
    pub signals: Vec<Signal>,
    /// Additional metadata associated with the `SIGNALS` section.
    pub attributes: Vec<Attribute>,
}

/// The mathematical content of a [`Signals`].
pub ghost struct SignalsView {
    pub signals: Seq<SignalView>,
    pub attributes: Seq<AttributeView>,
}

impl DeepView for Signals {
    type V = SignalsView;

    open spec fn deep_view(&self) -> SignalsView {
        SignalsView { signals: self.signals.deep_view(), attributes: self.attributes.deep_view() }
    }
}

/// The node that a `NODE` line describes: component and pin.
pub open spec fn spec_node(params: Seq<char>) -> Result<NodeView, ParseErrorView> {
    match spec_string(params) {
        Err(e) => Err(e),
        Ok((s1, component_name)) => match spec_sp_string(s1) {
            Err(e) => Err(e),
            Ok((_, pin_name)) => Ok(NodeView { component_name, pin_name }),
        },
    }
}

/// The test point that a `NAILLOC` line describes.
pub open spec fn spec_nail_loc(params: Seq<char>) -> Result<NailLocView, ParseErrorView> {
    match spec_string(params) {
        Err(e) => Err(e),
        Ok((s1, component_name)) => match spec_sp_string(s1) {
            Err(e) => Err(e),
            Ok((s2, pin_name)) => match spec_sp_string(s2) {
                Err(e) => Err(e),
                Ok((s3, tp_name)) => match spec_sp_x_y_ref(s3) {
                    Err(e) => Err(e),
                    Ok((s4, xy)) => match spec_sp_string(s4) {
                        Err(e) => Err(e),
                        Ok((s5, tan)) => match spec_sp_string(s5) {
                            Err(e) => Err(e),
                            Ok((s6, tin)) => match spec_sp_string(s6) {
                                Err(e) => Err(e),
                                Ok((s7, probe)) => match spec_sp_layer(s7) {
                                    Err(e) => Err(e),
                                    Ok((_, layer)) => Ok(
                                        NailLocView {
                                            component_name,
                                            pin_name,
                                            tp_name,
                                            xy,
                                            tan,
                                            tin,
                                            probe,
                                            layer,
                                        },
                                    ),
                                },
                            },
                        },
                    },
                },
            },
        },
    }
}

/// The signal that a `SIGNAL` line opens: its name, nothing else.
pub open spec fn spec_signal_new(params: Seq<char>) -> Result<SignalView, ParseErrorView> {
    match spec_string(params) {
        Err(e) => Err(e),
        Ok((_, name)) => Ok(
            SignalView { name, nodes: Seq::empty(), nail_locations: Seq::empty() },
        ),
    }
}

/// The signal `signal` after the line `kp`.
pub open spec fn spec_signal_update(signal: SignalView, kp: KeywordParamView) -> Result<
    SignalView,
    ParseErrorView,
> {
    match Keyword::spec_of(kp.keyword) {
        Keyword::Node => match spec_node(kp.parameter) {
            Ok(node) => Ok(SignalView { nodes: signal.nodes.push(node), ..signal }),
            Err(e) => Err(e),
        },
        Keyword::Nailloc => match spec_nail_loc(kp.parameter) {
            Ok(nail) => Ok(
                SignalView { nail_locations: signal.nail_locations.push(nail), ..signal },
            ),
            Err(e) => Err(e),
        },
        _ => Err(
            ParseErrorView::UnexpectedKeyword {
                section: SectionKind::Signals,
                keyword: kp.keyword,
            },
        ),
    }
}

/// The state of the builder of the section: the signals that are complete,
/// the one that is open, and the attributes of the section.
pub ghost struct SignalsParserView {
    pub signals: Seq<SignalView>,
    pub open: Option<SignalView>,
    pub attributes: Seq<AttributeView>,
}

/// The builder before the first line.
pub open spec fn spec_signals_init() -> SignalsParserView {
    SignalsParserView { signals: Seq::empty(), open: None, attributes: Seq::empty() }
}

/// The signals of `state` with the open one closed.
pub open spec fn spec_signals_flushed(state: SignalsParserView) -> Seq<SignalView> {
    match state.open {
        Some(signal) => state.signals.push(signal),
        None => state.signals,
    }
}

/// The state of the builder after the line `kp`. Attributes belong to the
/// section, whether a signal is open or not.
pub open spec fn spec_signals_step(state: SignalsParserView, kp: KeywordParamView) -> Result<
    SignalsParserView,
    ParseErrorView,
> {
    match Keyword::spec_of(kp.keyword) {
        Keyword::Signal => match spec_signal_new(kp.parameter) {
            Ok(signal) => Ok(
                SignalsParserView {
                    signals: spec_signals_flushed(state),
                    open: Some(signal),
                    ..state
                },
            ),
            Err(e) => Err(e),
        },
        Keyword::Attribute => match whole(spec_attrib_ref(kp.parameter)) {
            Ok(a) => Ok(SignalsParserView { attributes: state.attributes.push(a), ..state }),
            Err(e) => Err(e),
        },
        _ => match state.open {
            Some(signal) => match spec_signal_update(signal, kp) {
                Ok(signal) => Ok(SignalsParserView { open: Some(signal), ..state }),
                Err(e) => Err(e),
            },
            None => Err(
                ParseErrorView::UnexpectedKeyword {
                    section: SectionKind::Signals,
                    keyword: kp.keyword,
                },
            ),
        },
    }
}

/// The section that the builder `state` has collected.
pub open spec fn spec_signals_finalize(state: SignalsParserView) -> SignalsView {
    SignalsView { signals: spec_signals_flushed(state), attributes: state.attributes }
}

/// The signals that the lines of a `SIGNALS` section describe.
pub open spec fn spec_parse_signals(lines: Seq<KeywordParamView>) -> Result<
    SignalsView,
    ParseErrorView,
> {
    match run(
        |s: SignalsParserView, kp: KeywordParamView| spec_signals_step(s, kp),
        spec_signals_init(),
        lines,
    ) {
        Ok(state) => Ok(spec_signals_finalize(state)),
        Err(e) => Err(e),
    }
}

impl Node {
    /// Decodes the parameter of a `NODE` line.
    pub fn from_parameters(params: &str) -> (r: Result<Node, ParseError>)
        ensures
            agrees_whole(r, spec_node(params@)),
    {
        let (s1, component_name) = component_name(params)?;
        let (_, pin_name) = sp_string(s1)?;
        Ok(Node { component_name, pin_name })
    }
}

impl NailLoc {
    /// Decodes the parameter of a `NAILLOC` line.
    pub fn from_parameters(params: &str) -> (r: Result<NailLoc, ParseError>)
        ensures
            agrees_whole(r, spec_nail_loc(params@)),
    {
        let (s1, component_name) = component_name(params)?;
        let (s2, pin_name) = sp_string(s1)?;
        let (s3, tp_name) = sp_string(s2)?;
        let (s4, xy) = sp_x_y_ref(s3)?;
        let (s5, tan) = sp_string(s4)?;
        let (s6, tin) = sp_string(s5)?;
        let (s7, probe) = sp_string(s6)?;
        let (_, layer) = sp_layer(s7)?;
        Ok(NailLoc { component_name, pin_name, tp_name, xy, tan, tin, probe, layer })
    }
}

impl Signal {
    /// Opens the signal that the parameter of a `SIGNAL` line names.
    pub fn from_parameters(params: &str) -> (r: Result<Signal, ParseError>)
        ensures
            agrees_whole(r, spec_signal_new(params@)),
    {
        let (_, name) = sig_name(params)?;
        let r = Signal { name, nodes: Vec::new(), nail_locations: Vec::new() };
        assert(r.nodes.deep_view() =~= Seq::empty());
        assert(r.nail_locations.deep_view() =~= Seq::empty());
        Ok(r)
    }

    /// Applies the line `kp` to the signal. On an error the signal is as before.
    pub fn update(&mut self, kp: &KeywordParam) -> (r: Result<(), ParseError>)
        ensures
            match r {
                Ok(_) => spec_signal_update(old(self).deep_view(), kp.deep_view()) == Ok::<
                    SignalView,
                    ParseErrorView,
                >(final(self).deep_view()),
                Err(e) => spec_signal_update(old(self).deep_view(), kp.deep_view()) == Err::<
                    SignalView,
                    ParseErrorView,
                >(e.deep_view()) && *final(self) == *old(self),
            },
    {
        match Keyword::of(kp.keyword) {
            Keyword::Node => {
                let node = Node::from_parameters(kp.parameter)?;
                let ghost before = self.nodes.deep_view();
                self.nodes.push(node);
                assert(self.nodes.deep_view() =~= before.push(node.deep_view()));
                Ok(())
            },
            Keyword::Nailloc => {
                let nail = NailLoc::from_parameters(kp.parameter)?;
                let ghost before = self.nail_locations.deep_view();
                self.nail_locations.push(nail);
                assert(self.nail_locations.deep_view() =~= before.push(nail.deep_view()));
                Ok(())
            },
            _ => Err(unexpected(SectionKind::Signals, kp.keyword)),
        }
    }
}

/// The builder of the `SIGNALS` section.
#[derive(Debug, Clone, PartialEq, Eq)]
pub struct SignalsParser {
    /// The signal that is open.
    pub state: Option<Signal>,
    /// The signals that are complete.
    pub signals: Vec<Signal>,
    /// The attributes of the section.
    pub attributes: Vec<Attribute>,
}

impl DeepView for SignalsParser {
    type V = SignalsParserView;

    open spec fn deep_view(&self) -> SignalsParserView {
        SignalsParserView {
            signals: self.signals.deep_view(),
            open: self.state.deep_view(),
            attributes: self.attributes.deep_view(),
        }
    }
}

impl SignalsParser {
    /// The builder before the first line.
    pub fn new() -> (r: SignalsParser)
        ensures
            r.deep_view() == spec_signals_init(),
    {
        let r = SignalsParser { state: None, signals: Vec::new(), attributes: Vec::new() };
        assert(r.signals.deep_view() =~= Seq::empty());
        assert(r.attributes.deep_view() =~= Seq::empty());
        r
    }

    /// Takes in the line `kp`. On an error the builder is as before.
    pub fn ingest(&mut self, kp: &KeywordParam) -> (r: Result<(), ParseError>)
        ensures
            match r {
                Ok(_) => spec_signals_step(old(self).deep_view(), kp.deep_view()) == Ok::<
                    SignalsParserView,
                    ParseErrorView,
                >(final(self).deep_view()),
                Err(e) => spec_signals_step(old(self).deep_view(), kp.deep_view()) == Err::<
                    SignalsParserView,
                    ParseErrorView,
                >(e.deep_view()) && final(self).deep_view() == old(self).deep_view(),
            },
    {
        match Keyword::of(kp.keyword) {
            Keyword::Signal => {
                let signal = Signal::from_parameters(kp.parameter)?;
                if let Some(done) = self.state.take() {
                    let ghost before = self.signals.deep_view();
                    self.signals.push(done);
                    assert(self.signals.deep_view() =~= before.push(done.deep_view()));
                }
                self.state = Some(signal);
                Ok(())
            },
            Keyword::Attribute => {
                let (_, attribute) = attrib_ref(kp.parameter)?;
                let ghost before = self.attributes.deep_view();
                self.attributes.push(attribute);
                assert(self.attributes.deep_view() =~= before.push(attribute.deep_view()));
                Ok(())
            },
            _ => match self.state.take() {
                Some(mut signal) => {
                    let r = signal.update(kp);
                    self.state = Some(signal);
                    r
                },
                None => Err(unexpected(SectionKind::Signals, kp.keyword)),
            },
        }
    }

    /// Closes the open signal and hands out the section.
    pub fn finalize(self) -> (r: Result<Signals, ParseError>)
        ensures
            r matches Ok(s) && s.deep_view() == spec_signals_finalize(self.deep_view()),
    {
        let mut signals = self.signals;
        if let Some(signal) = self.state {
            let ghost before = signals.deep_view();
            signals.push(signal);
            assert(signals.deep_view() =~= before.push(signal.deep_view()));
        }
        Ok(Signals { signals, attributes: self.attributes })
    }
}

impl Signals {
    /// Builds the section from the lines of a `SIGNALS` section.
    pub fn new(params: &[KeywordParam]) -> (r: Result<Signals, ParseError>)
        ensures
            agrees_whole(r, spec_parse_signals(params.deep_view())),
    {
        let ghost step = |s: SignalsParserView, kp: KeywordParamView| spec_signals_step(s, kp);
        let ghost lines = params.deep_view();
        let mut p = SignalsParser::new();
        let mut i: usize = 0;
        while i < params.len()
            invariant
                0 <= i <= params.len(),
                lines == params.deep_view(),
                step == |s: SignalsParserView, kp: KeywordParamView| spec_signals_step(s, kp),
                run(step, spec_signals_init(), lines.take(i as int)) == Ok::<
                    SignalsParserView,
                    ParseErrorView,
                >(p.deep_view()),
            decreases params.len() - i,
        {
            proof {
                lemma_run_step(step, spec_signals_init(), lines, i as int);
                lemma_run_error(step, spec_signals_init(), lines, i as int + 1);
                assert(lines[i as int] == params[i as int].deep_view());
            }
            p.ingest(&params[i])?;
            i += 1;
        }
        assert(lines.take(i as int) == lines);
        p.finalize()
    }
}

/// The line of a node.
pub open spec fn node_line(v: NodeView) -> Seq<char> {
    "NODE "@ + string_text(v.component_name) + " "@ + string_text(v.pin_name)
}

/// The line of a test point.
pub open spec fn nail_loc_line(v: NailLocView) -> Seq<char> {
    "NAILLOC "@ + string_text(v.component_name) + " "@ + string_text(v.pin_name) + " "@
        + string_text(v.tp_name) + " "@ + x_y_text(v.xy) + " "@ + string_text(v.tan) + " "@
        + string_text(v.tin) + " "@ + string_text(v.probe) + " "@ + layer_text(v.layer)
}

/// The lines of a signal: its opening line, its nodes, its test points.
pub open spec fn signal_text(v: SignalView) -> Seq<char> {
    join_lines(
        seq![
            "SIGNAL "@ + string_text(v.name),
            join_lines(v.nodes.map_values(|n: NodeView| node_line(n))),
            join_lines(v.nail_locations.map_values(|n: NailLocView| nail_loc_line(n))),
        ],
    )
}

/// The text of the `SIGNALS` section: the opening line, the signals, the
/// attributes of the section, the closing line.
pub open spec fn signals_text(v: SignalsView) -> Seq<char> {
    join_lines(
        seq![
            "$SIGNALS"@,
            join_lines(v.signals.map_values(|s: SignalView| signal_text(s))),
            attributes_text(v.attributes),
            "$ENDSIGNALS"@,
        ],
    )
}

impl ToGencadString for Node {
    open spec fn gencad(&self) -> Seq<char> {
        node_line(self.deep_view())
    }

    fn to_gencad_string(&self) -> (r: String) {
        let mut out = concat("NODE ", self.component_name.to_gencad_string().as_str());
        out.append(" ");
        out.append(self.pin_name.to_gencad_string().as_str());
        out
    }
}

impl ToGencadString for NailLoc {
    open spec fn gencad(&self) -> Seq<char> {
        nail_loc_line(self.deep_view())
    }

    fn to_gencad_string(&self) -> (r: String) {
        let mut out = concat("NAILLOC ", self.component_name.to_gencad_string().as_str());
        out.append(" ");
        out.append(self.pin_name.to_gencad_string().as_str());
        out.append(" ");
        out.append(self.tp_name.to_gencad_string().as_str());
        out.append(" ");
        out.append(self.xy.to_gencad_string().as_str());
        out.append(" ");
        out.append(self.tan.to_gencad_string().as_str());
        out.append(" ");
        out.append(self.tin.to_gencad_string().as_str());
        out.append(" ");
        out.append(self.probe.to_gencad_string().as_str());
        out.append(" ");
        out.append(self.layer.to_gencad_string().as_str());
        out
    }
}

impl ToGencadString for Signal {
    open spec fn gencad(&self) -> Seq<char> {
        signal_text(self.deep_view())
    }

    fn to_gencad_string(&self) -> (r: String) {
        let nodes = render_all(&self.nodes);
        assert(nodes.deep_view() =~= self.nodes.deep_view().map_values(
            |n: NodeView| node_line(n),
        ));
        let nails = render_all(&self.nail_locations);
        assert(nails.deep_view() =~= self.nail_locations.deep_view().map_values(
            |n: NailLocView| nail_loc_line(n),
        ));
        let mut lines: Vec<String> = Vec::new();
        lines.push(concat("SIGNAL ", self.name.to_gencad_string().as_str()));
        lines.push(join(&nodes));
        lines.push(join(&nails));
        assert(lines.deep_view() =~= seq![
            "SIGNAL "@ + string_text(self.name@),
            join_lines(self.nodes.deep_view().map_values(|n: NodeView| node_line(n))),
            join_lines(
                self.nail_locations.deep_view().map_values(|n: NailLocView| nail_loc_line(n)),
            ),
        ]);
        join(&lines)
    }
}

impl ToGencadString for Signals {
    open spec fn gencad(&self) -> Seq<char> {
        signals_text(self.deep_view())
    }

    fn to_gencad_string(&self) -> (r: String) {
        let signals = render_all(&self.signals);
        assert(signals.deep_view() =~= self.signals.deep_view().map_values(
            |s: SignalView| signal_text(s),
        ));
        let mut lines: Vec<String> = Vec::new();
        lines.push(String::from_str("$SIGNALS"));
        lines.push(join(&signals));
        lines.push(self.attributes.to_gencad_string());
        lines.push(String::from_str("$ENDSIGNALS"));
        assert(lines.deep_view() =~= seq![
            "$SIGNALS"@,
            join_lines(self.signals.deep_view().map_values(|s: SignalView| signal_text(s))),
            attributes_text(self.attributes.deep_view()),
            "$ENDSIGNALS"@,
        ]);
        join(&lines)
    }
}

/// Whether the node `v` can be written and read back.
pub open spec fn node_ok(v: NodeView) -> bool {
    is_writable(v.component_name) && is_writable(v.pin_name)
}

/// Whether the test point `v` can be written and read back.
pub open spec fn nail_loc_ok(v: NailLocView) -> bool {
    &&& is_writable(v.component_name)
    &&& is_writable(v.pin_name)
    &&& is_writable(v.tp_name)
    &&& x_y_ok(v.xy)
    &&& is_writable(v.tan)
    &&& is_writable(v.tin)
    &&& is_writable(v.probe)
}

/// Whether the signal `v` can be written and read back.
pub open spec fn signal_ok(v: SignalView) -> bool {
    &&& is_writable(v.name)
    &&& forall|i: int| 0 <= i < v.nodes.len() ==> node_ok(#[trigger] v.nodes[i])
    &&& forall|i: int| 0 <= i < v.nail_locations.len() ==> nail_loc_ok(#[trigger] v.nail_locations[i])
}

/// Whether the section `v` can be written and read back.
pub open spec fn signals_ok(v: SignalsView) -> bool {
    &&& forall|i: int| 0 <= i < v.signals.len() ==> signal_ok(#[trigger] v.signals[i])
    &&& attributes_ok(v.attributes)
}

/// The parameter of the line of a node.
pub open spec fn node_parameter(v: NodeView) -> Seq<char> {
    string_text(v.component_name) + " "@ + string_text(v.pin_name)
}

/// The statement of a node.
pub open spec fn node_statement(v: NodeView) -> KeywordParamView {
    KeywordParamView { keyword: "NODE"@, parameter: node_parameter(v) }
}

/// The parameter of the line of a test point.
pub open spec fn nail_loc_parameter(v: NailLocView) -> Seq<char> {
    string_text(v.component_name) + " "@ + string_text(v.pin_name) + " "@ + string_text(v.tp_name)
        + " "@ + x_y_text(v.xy) + " "@ + string_text(v.tan) + " "@ + string_text(v.tin) + " "@
        + string_text(v.probe) + " "@ + layer_text(v.layer)
}

/// The statement of a test point.
pub open spec fn nail_loc_statement(v: NailLocView) -> KeywordParamView {
    KeywordParamView { keyword: "NAILLOC"@, parameter: nail_loc_parameter(v) }
}

/// The statements of a signal, in the order of its lines.
pub open spec fn signal_statements(v: SignalView) -> Seq<KeywordParamView> {
    seq![KeywordParamView { keyword: "SIGNAL"@, parameter: string_text(v.name) }]
        + v.nodes.map_values(|n: NodeView| node_statement(n)) + v.nail_locations.map_values(
        |n: NailLocView| nail_loc_statement(n),
    )
}

/// The line of a node is read back.
proof fn lemma_whole_node(v: NodeView)
    requires
        node_ok(v),
    ensures
        spec_node(node_parameter(v)) == Ok::<NodeView, ParseErrorView>(v),
        reads_as(node_line(v), seq![node_statement(v)]),
{
    reveal_strlit(" ");
    let none = Seq::<char>::empty();
    let tail1 = " "@ + (string_text(v.pin_name) + none);
    lemma_sp_string_round_trip(v.pin_name, none);
    lemma_string_round_trip(v.component_name, tail1);
    assert(node_parameter(v) =~= string_text(v.component_name) + tail1);
    lemma_string_one_line(v.component_name);
    lemma_string_one_line(v.pin_name);
    lemma_one_line_concat(string_text(v.component_name), " "@);
    lemma_one_line_concat(string_text(v.component_name) + " "@, string_text(v.pin_name));
    reveal_strlit("NODE ");
    reveal_strlit("NODE");
    assert("NODE "@ =~= "NODE"@ + " "@);
    lemma_keyword(Keyword::Node);
    lemma_reads_keyword_line("NODE "@, "NODE"@, node_parameter(v));
    assert(node_line(v) =~= "NODE "@ + node_parameter(v));
}

/// The parameter of the line of a test point is read back.
#[verifier::rlimit(80)]
#[verifier::spinoff_prover]
proof fn lemma_nail_loc_parsed(v: NailLocView)
    requires
        nail_loc_ok(v),
    ensures
        spec_nail_loc(nail_loc_parameter(v)) == Ok::<NailLocView, ParseErrorView>(v),
{
    let none = Seq::<char>::empty();
    let tail7 = " "@ + (layer_text(v.layer) + none);
    let tail6 = " "@ + (string_text(v.probe) + tail7);
    let tail5 = " "@ + (string_text(v.tin) + tail6);
    let tail4 = " "@ + (string_text(v.tan) + tail5);
    let tail3 = " "@ + (x_y_text(v.xy) + tail4);
    let tail2 = " "@ + (string_text(v.tp_name) + tail3);
    let tail1 = " "@ + (string_text(v.pin_name) + tail2);
    lemma_sp_layer_round_trip(v.layer, none);
    lemma_sp_string_round_trip(v.probe, tail7);
    lemma_sp_string_round_trip(v.tin, tail6);
    lemma_sp_string_round_trip(v.tan, tail5);
    lemma_sp_x_y_round_trip(v.xy, tail4);
    lemma_sp_string_round_trip(v.tp_name, tail3);
    lemma_sp_string_round_trip(v.pin_name, tail2);
    lemma_string_round_trip(v.component_name, tail1);
    assert(nail_loc_parameter(v) =~= string_text(v.component_name) + tail1);
}

/// The line of a test point is read back.
proof fn lemma_whole_nail_loc(v: NailLocView)
    requires
        nail_loc_ok(v),
    ensures
        spec_nail_loc(nail_loc_parameter(v)) == Ok::<NailLocView, ParseErrorView>(v),
        reads_as(nail_loc_line(v), seq![nail_loc_statement(v)]),
{
    reveal_strlit(" ");
    lemma_nail_loc_parsed(v);
    lemma_string_one_line(v.component_name);
    lemma_string_one_line(v.pin_name);
    lemma_string_one_line(v.tp_name);
    lemma_x_y_one_line(v.xy);
    lemma_string_one_line(v.tan);
    lemma_string_one_line(v.tin);
    lemma_string_one_line(v.probe);
    lemma_layer_text_one_line(v.layer);
    lemma_one_line_concat(string_text(v.component_name), " "@);
    lemma_one_line_concat(string_text(v.component_name) + " "@, string_text(v.pin_name));
    lemma_one_line_concat(string_text(v.component_name) + " "@ + string_text(v.pin_name), " "@);
    lemma_one_line_concat(string_text(v.component_name) + " "@ + string_text(v.pin_name) + " "@, string_text(v.tp_name));
    lemma_one_line_concat(string_text(v.component_name) + " "@ + string_text(v.pin_name) + " "@ + string_text(v.tp_name), " "@);
    lemma_one_line_concat(string_text(v.component_name) + " "@ + string_text(v.pin_name) + " "@ + string_text(v.tp_name) + " "@, x_y_text(v.xy));
    lemma_one_line_concat(string_text(v.component_name) + " "@ + string_text(v.pin_name) + " "@ + string_text(v.tp_name) + " "@ + x_y_text(v.xy), " "@);
    lemma_one_line_concat(string_text(v.component_name) + " "@ + string_text(v.pin_name) + " "@ + string_text(v.tp_name) + " "@ + x_y_text(v.xy) + " "@, string_text(v.tan));
    lemma_one_line_concat(string_text(v.component_name) + " "@ + string_text(v.pin_name) + " "@ + string_text(v.tp_name) + " "@ + x_y_text(v.xy) + " "@ + string_text(v.tan), " "@);
    lemma_one_line_concat(string_text(v.component_name) + " "@ + string_text(v.pin_name) + " "@ + string_text(v.tp_name) + " "@ + x_y_text(v.xy) + " "@ + string_text(v.tan) + " "@, string_text(v.tin));
    lemma_one_line_concat(string_text(v.component_name) + " "@ + string_text(v.pin_name) + " "@ + string_text(v.tp_name) + " "@ + x_y_text(v.xy) + " "@ + string_text(v.tan) + " "@ + string_text(v.tin), " "@);
    lemma_one_line_concat(string_text(v.component_name) + " "@ + string_text(v.pin_name) + " "@ + string_text(v.tp_name) + " "@ + x_y_text(v.xy) + " "@ + string_text(v.tan) + " "@ + string_text(v.tin) + " "@, string_text(v.probe));
    lemma_one_line_concat(string_text(v.component_name) + " "@ + string_text(v.pin_name) + " "@ + string_text(v.tp_name) + " "@ + x_y_text(v.xy) + " "@ + string_text(v.tan) + " "@ + string_text(v.tin) + " "@ + string_text(v.probe), " "@);
    lemma_one_line_concat(string_text(v.component_name) + " "@ + string_text(v.pin_name) + " "@ + string_text(v.tp_name) + " "@ + x_y_text(v.xy) + " "@ + string_text(v.tan) + " "@ + string_text(v.tin) + " "@ + string_text(v.probe) + " "@, layer_text(v.layer));
    reveal_strlit("NAILLOC ");
    reveal_strlit("NAILLOC");
    assert("NAILLOC "@ =~= "NAILLOC"@ + " "@);
    lemma_keyword(Keyword::Nailloc);
    lemma_reads_keyword_line("NAILLOC "@, "NAILLOC"@, nail_loc_parameter(v));
    assert(nail_loc_line(v) =~= "NAILLOC "@ + nail_loc_parameter(v));
}

/// The text of a signal is read as its statements.
proof fn lemma_signal_reads(v: SignalView)
    requires
        signal_ok(v),
    ensures
        reads_as(signal_text(v), signal_statements(v)),
{
    reveal_strlit(" ");
    reveal_strlit("SIGNAL ");
    reveal_strlit("SIGNAL");
    assert("SIGNAL "@ =~= "SIGNAL"@ + " "@);
    lemma_keyword(Keyword::Signal);
    lemma_whole_string(v.name);
    lemma_reads_empty();
    let none = Seq::<Seq<char>>::empty();
    assert(join_lines(none) =~= Seq::<char>::empty());
    let head = KeywordParamView { keyword: "SIGNAL"@, parameter: string_text(v.name) };
    lemma_reads_keyword_line("SIGNAL "@, "SIGNAL"@, string_text(v.name));
    lemma_reads_more(none, Seq::empty(), "SIGNAL "@ + string_text(v.name), seq![head]);
    let t0 = none.push("SIGNAL "@ + string_text(v.name));
    let s0 = Seq::<KeywordParamView>::empty() + seq![head];
    assert forall|i: int| 0 <= i < v.nodes.len() implies reads_as(
        node_line(#[trigger] v.nodes[i]),
        seq![node_statement(v.nodes[i])],
    ) by {
        lemma_whole_node(v.nodes[i]);
    }
    lemma_reads_each(v.nodes, |n: NodeView| node_line(n), |n: NodeView| node_statement(n));
    let n = v.nodes.map_values(|n: NodeView| node_statement(n));
    let nodes = join_lines(v.nodes.map_values(|n: NodeView| node_line(n)));
    lemma_reads_more(t0, s0, nodes, n);
    assert forall|i: int| 0 <= i < v.nail_locations.len() implies reads_as(
        nail_loc_line(#[trigger] v.nail_locations[i]),
        seq![nail_loc_statement(v.nail_locations[i])],
    ) by {
        lemma_whole_nail_loc(v.nail_locations[i]);
    }
    lemma_reads_each(
        v.nail_locations,
        |n: NailLocView| nail_loc_line(n),
        |n: NailLocView| nail_loc_statement(n),
    );
    let l = v.nail_locations.map_values(|n: NailLocView| nail_loc_statement(n));
    let nails = join_lines(v.nail_locations.map_values(|n: NailLocView| nail_loc_line(n)));
    lemma_reads_more(t0.push(nodes), s0 + n, nails, l);
    assert(t0.push(nodes).push(nails) =~= seq!["SIGNAL "@ + string_text(v.name), nodes, nails]);
    assert(s0 + n + l =~= signal_statements(v));
}

/// The statements of a signal close the signal that is open and leave the
/// signal open, as it is.
proof fn lemma_signal_run(state: SignalsParserView, v: SignalView)
    requires
        signal_ok(v),
    ensures
        run(
            |s: SignalsParserView, kp: KeywordParamView| spec_signals_step(s, kp),
            state,
            signal_statements(v),
        ) == Ok::<SignalsParserView, ParseErrorView>(
            SignalsParserView { signals: spec_signals_flushed(state), open: Some(v), ..state },
        ),
{
    let step = |s: SignalsParserView, kp: KeywordParamView| spec_signals_step(s, kp);
    lemma_keyword(Keyword::Signal);
    lemma_keyword(Keyword::Node);
    lemma_keyword(Keyword::Nailloc);
    lemma_whole_string(v.name);
    let d0 = SignalView { nodes: Seq::empty(), nail_locations: Seq::empty(), ..v };
    let st0 = SignalsParserView { signals: spec_signals_flushed(state), open: Some(d0), ..state };
    let head = KeywordParamView { keyword: "SIGNAL"@, parameter: string_text(v.name) };
    assert(spec_signal_new(head.parameter) == Ok::<SignalView, ParseErrorView>(d0));
    lemma_run_one(step, state, head);
    let a0 = seq![head];
    assert(run(step, state, a0) == Ok::<SignalsParserView, ParseErrorView>(st0));
    let put0 = |s: SignalsParserView, list: Seq<NodeView>|
        SignalsParserView { open: Some(SignalView { nodes: list, ..s.open->0 }), ..s };
    let line0 = |n: NodeView| node_statement(n);
    assert forall|list: Seq<NodeView>, j: int| 0 <= j < v.nodes.len() implies #[trigger] step(
        put0(st0, list),
        line0(v.nodes[j]),
    ) == Ok::<SignalsParserView, ParseErrorView>(put0(st0, list.push(v.nodes[j]))) by {
        lemma_whole_node(v.nodes[j]);
    }
    lemma_run_each(step, put0, st0, Seq::empty(), v.nodes, line0);
    assert(put0(st0, Seq::empty()) == st0);
    assert(Seq::<NodeView>::empty() + v.nodes =~= v.nodes);
    let n = v.nodes.map_values(line0);
    lemma_run_concat(step, state, a0, n);
    let d1 = SignalView { nodes: v.nodes, ..d0 };
    let st1 = SignalsParserView { signals: st0.signals, open: Some(d1), ..state };
    assert(put0(st0, v.nodes) == st1);
    let put1 = |s: SignalsParserView, list: Seq<NailLocView>|
        SignalsParserView { open: Some(SignalView { nail_locations: list, ..s.open->0 }), ..s };
    let line1 = |n: NailLocView| nail_loc_statement(n);
    assert forall|list: Seq<NailLocView>, j: int|
        0 <= j < v.nail_locations.len() implies #[trigger] step(
        put1(st1, list),
        line1(v.nail_locations[j]),
    ) == Ok::<SignalsParserView, ParseErrorView>(put1(st1, list.push(v.nail_locations[j]))) by {
        lemma_whole_nail_loc(v.nail_locations[j]);
    }
    lemma_run_each(step, put1, st1, Seq::empty(), v.nail_locations, line1);
    assert(put1(st1, Seq::empty()) == st1);
    assert(Seq::<NailLocView>::empty() + v.nail_locations =~= v.nail_locations);
    let l = v.nail_locations.map_values(line1);
    lemma_run_concat(step, state, a0 + n, l);
    assert(a0 + n + l =~= signal_statements(v));
    assert(SignalView { nail_locations: v.nail_locations, ..d1 } == v);
}

/// The statements of the signals `v`, one signal behind the other.
pub open spec fn signals_statements(v: Seq<SignalView>) -> Seq<KeywordParamView> {
    concat_all(v.map_values(|d: SignalView| signal_statements(d)))
}

/// The state of the builder behind the statements of the signals `v`.
pub open spec fn signals_state(v: Seq<SignalView>) -> SignalsParserView {
    if v.len() == 0 {
        spec_signals_init()
    } else {
        SignalsParserView { signals: v.drop_last(), open: Some(v.last()), attributes: Seq::empty() }
    }
}

/// The statements of signals, one signal behind the other, are read as the signals.
proof fn lemma_signals_run(v: Seq<SignalView>)
    requires
        forall|i: int| 0 <= i < v.len() ==> signal_ok(#[trigger] v[i]),
    ensures
        run(
            |s: SignalsParserView, kp: KeywordParamView| spec_signals_step(s, kp),
            spec_signals_init(),
            signals_statements(v),
        ) == Ok::<SignalsParserView, ParseErrorView>(signals_state(v)),
        spec_signals_flushed(signals_state(v)) == v,
    decreases v.len(),
{
    let step = |s: SignalsParserView, kp: KeywordParamView| spec_signals_step(s, kp);
    let init = spec_signals_init();
    let lists = v.map_values(|d: SignalView| signal_statements(d));
    if v.len() == 0 {
        assert(concat_all(lists) =~= Seq::<KeywordParamView>::empty());
        assert(spec_signals_flushed(signals_state(v)) =~= v);
    } else {
        let first = v.drop_last();
        assert forall|i: int| 0 <= i < first.len() implies signal_ok(#[trigger] first[i]) by {
            assert(first[i] == v[i]);
        }
        lemma_signals_run(first);
        assert(lists.drop_last() =~= first.map_values(|d: SignalView| signal_statements(d)));
        assert(lists.last() == signal_statements(v.last()));
        assert(signal_ok(v[v.len() - 1]));
        let before = signals_state(first);
        lemma_signal_run(before, v.last());
        lemma_run_concat(step, init, concat_all(lists.drop_last()), signal_statements(v.last()));
        assert(spec_signals_flushed(before) == first);
        assert(first.push(v.last()) =~= v);
    }
}

/// The `SIGNALS` section is read back from its text: the text of a section
/// that can be written is split into the statements of a section named
/// `SIGNALS`, and the builder makes the section of them.
pub proof fn lemma_signals_round_trip(v: SignalsView)
    requires
        signals_ok(v),
    ensures
        section_round_trips(signals_text(v), ParsedSectionView::Signals(v)),
{
    reveal(spec_build_section);
    lemma_section_signals();
    lemma_keyword(Keyword::Attribute);
    let step = |s: SignalsParserView, kp: KeywordParamView| spec_signals_step(s, kp);
    let texts = v.signals.map_values(|d: SignalView| signal_text(d));
    let lists = v.signals.map_values(|d: SignalView| signal_statements(d));
    let signals = signals_statements(v.signals);
    let attributes = v.attributes.map_values(|a: AttributeView| attribute_statement(a));
    lemma_signals_run(v.signals);
    assert forall|i: int| 0 <= i < texts.len() implies reads_as(#[trigger] texts[i], lists[i]) by {
        assert(signal_ok(v.signals[i]));
        lemma_signal_reads(v.signals[i]);
    }
    lemma_reads_join_lines(texts, lists);
    lemma_reads_attributes(v.attributes);
    lemma_reads_join(join_lines(texts), signals, attributes_text(v.attributes), attributes);
    let body = join_lines(texts) + crlf() + attributes_text(v.attributes);
    lemma_section_written("SIGNALS"@, body, signals + attributes);
    lemma_join_four("$SIGNALS"@, join_lines(texts), attributes_text(v.attributes), "$ENDSIGNALS"@);
    assert(signals_text(v) =~= section_text("SIGNALS"@, body));
    let mid = signals_state(v.signals);
    let put = |s: SignalsParserView, list: Seq<AttributeView>|
        SignalsParserView { attributes: list, ..s };
    let line = |a: AttributeView| attribute_statement(a);
    assert forall|list: Seq<AttributeView>, j: int|
        0 <= j < v.attributes.len() implies #[trigger] step(put(mid, list), line(v.attributes[j]))
        == Ok::<SignalsParserView, ParseErrorView>(put(mid, list.push(v.attributes[j]))) by {
        lemma_whole_attribute(v.attributes[j]);
    }
    lemma_run_each(step, put, mid, Seq::empty(), v.attributes, line);
    assert(put(mid, Seq::empty()) == mid);
    assert(Seq::<AttributeView>::empty() + v.attributes =~= v.attributes);
    lemma_run_concat(step, spec_signals_init(), signals, attributes);
    let end = put(mid, v.attributes);
    assert(spec_signals_flushed(end) == spec_signals_flushed(mid));
    assert(spec_signals_finalize(end) == v);
    let section = SectionView { name: "SIGNALS"@, parameters: signals + attributes };
    assert(spec_build_section(section) == Ok::<ParsedSectionView, ParseErrorView>(
        ParsedSectionView::Signals(v),
    ));
}

} // verus!
