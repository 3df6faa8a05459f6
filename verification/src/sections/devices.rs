//! The `DEVICES` section.

use vstd::prelude::*;
use vstd::string::*;
use crate::error::{agrees_whole, ParseError, ParseErrorView, SectionKind};
use crate::lex::{lemma_one_line_concat, one_line};
use crate::parser::{KeywordParam, KeywordParamView, SectionView};
use crate::parser::file::{
    lemma_section_devices, ParsedSectionView, section_round_trips, spec_build_section,
};
use crate::parser::keyword::{Keyword, lemma_keyword};
use crate::parser::written::{
    concat_all, lemma_empty_section_written, lemma_reads_concat, lemma_reads_each,
    lemma_reads_empty, lemma_reads_join_lines, lemma_reads_keyword_line, lemma_reads_more,
    lemma_reads_opt, lemma_section_written, opt_statement, reads_as, section_text,
};
use crate::sections::{
    attribute_statement, attributes_ok, first_wins, lemma_reads_attributes, lemma_run_concat,
    lemma_run_each, lemma_run_error, lemma_run_one, lemma_run_opt, lemma_run_step,
    lemma_whole_attribute, lemma_whole_count, lemma_whole_string, run, unexpected, whole,
};
use crate::serialization::{
    concat, crlf, extend_lines, join, join_lines, lemma_join_wrapped, opt_line, push_line,
    push_opt_line, render_all, render_opt, ToGencadString,
};
use crate::types::aliases::pin_name;
use crate::types::attrib_ref::{
    attrib_ref, Attribute, attributes_text, AttributeView, lemma_sp_string_round_trip, sp_string,
    spec_attrib_ref, spec_sp_string,
};
use crate::types::p_integer::{decimal_digits, p_integer, push_decimal, spec_p_integer};
use crate::types::string::{
    is_writable, lemma_string_one_line, lemma_string_round_trip, part_name, spec_part_name,
    spec_string, string, string_text,
};

verus! {

/// A pin description for a device, typically used to describe the function or role of a pin.
#[derive(Debug, Clone, PartialEq, Eq)]
pub struct PinDesc {
    /// The name of the pin as defined in the device's shape and used in signals.
    pub pin_name: String,
    /// A textual description of the pin's purpose or function.
    pub text: String,
}

/// The mathematical content of a [`PinDesc`] and of a [`PinFunct`].
pub ghost struct PinTextView {
    pub pin_name: Seq<char>,
    pub text: Seq<char>,
}

impl DeepView for PinDesc {
    type V = PinTextView;

    open spec fn deep_view(&self) -> PinTextView {
        PinTextView { pin_name: self.pin_name@, text: self.text@ }
    }
}

/// A pin function for a device, typically used to describe the pin's role in tester output data.
#[derive(Debug, Clone, PartialEq, Eq)]
pub struct PinFunct {
    /// The name of the pin as defined in the device's shape and used in signals.
    pub pin_name: String,
    /// A textual description of the pin's functional behavior.
    pub text: String,
}

impl DeepView for PinFunct {
    type V = PinTextView;

    open spec fn deep_view(&self) -> PinTextView {
        PinTextView { pin_name: self.pin_name@, text: self.text@ }
    }
}

/// A device used on the board. These descriptions are independent of board
/// geometry and are used for cross-referencing components.
#[derive(Debug, Clone, PartialEq, Eq)]
pub struct Device {
    /// The name of the device. Must be unique per device.
    pub name: String,
    /// An optional corporate part number or CAD part name. Does not need to be unique.
    pub part: Option<String>,
    /// An optional field to define the component type (e.g., "RES" for resistor).
    pub dtype: Option<String>,
    /// An optional field to enhance the `dtype` with additional information.
    pub style: Option<String>,
    /// An optional field to define the physical package type (e.g., "DIL_8", "TO99").
    pub package: Option<String>,
    /// A list of pin descriptions, typically used for CAD data.
    pub pin_descriptions: Vec<PinDesc>,
    /// A list of pin functions, typically used for tester output data.
    pub pin_functions: Vec<PinFunct>,
    /// An optional field to define the number of physical pins on the device.
    pub pincount: Option<u16>,
    /// An optional field to define the value of the device (e.g., resistance for resistors).
    pub value: Option<String>,
    /// An optional field to define a tolerance for the device.
    pub tol: Option<String>,
    /// An optional field to define the negative (minimum) tolerance for the device.
    pub ntol: Option<String>,
    /// An optional field to define the positive (maximum) tolerance for the device.
    pub ptol: Option<String>,
    /// An optional field to define a voltage rating for the device.
    pub volts: Option<String>,
    /// An optional free text field to describe the device.
    pub desc: Option<String>,
    /// A list of additional attributes associated with the device.
    pub attributes: Vec<Attribute>,
}

/// The mathematical content of a [`Device`].
pub ghost struct DeviceView {
    pub name: Seq<char>,
    pub part: Option<Seq<char>>,
    pub dtype: Option<Seq<char>>,
    pub style: Option<Seq<char>>,
    pub package: Option<Seq<char>>,
    pub pin_descriptions: Seq<PinTextView>,
    pub pin_functions: Seq<PinTextView>,
    pub pincount: Option<u16>,
    pub value: Option<Seq<char>>,
    pub tol: Option<Seq<char>>,
    pub ntol: Option<Seq<char>>,
    pub ptol: Option<Seq<char>>,
    pub volts: Option<Seq<char>>,
    pub desc: Option<Seq<char>>,
    pub attributes: Seq<AttributeView>,
}

impl DeepView for Device {
    type V = DeviceView;

    open spec fn deep_view(&self) -> DeviceView {
        DeviceView {
            name: self.name@,
            part: self.part.deep_view(),
            dtype: self.dtype.deep_view(),
            style: self.style.deep_view(),
            package: self.package.deep_view(),
            pin_descriptions: self.pin_descriptions.deep_view(),
            pin_functions: self.pin_functions.deep_view(),
            pincount: self.pincount,
            value: self.value.deep_view(),
            tol: self.tol.deep_view(),
            ntol: self.ntol.deep_view(),
            ptol: self.ptol.deep_view(),
            volts: self.volts.deep_view(),
            desc: self.desc.deep_view(),
            attributes: self.attributes.deep_view(),
        }
    }
}

/// The pin name and the text of a `PINDESC` or `PINFUNCT` line.
pub open spec fn spec_pin_text(params: Seq<char>) -> Result<PinTextView, ParseErrorView> {
    match spec_string(params) {
        Err(e) => Err(e),
        Ok((s1, pin_name)) => match spec_sp_string(s1) {
            Err(e) => Err(e),
            Ok((_, text)) => Ok(PinTextView { pin_name, text }),
        },
    }
}

/// The device that a `DEVICE` line opens: it has its name and nothing else.
pub open spec fn spec_device_new(params: Seq<char>) -> Result<DeviceView, ParseErrorView> {
    match spec_part_name(params) {
        Err(e) => Err(e),
        Ok((_, name)) => Ok(
            DeviceView {
                name,
                part: None,
                dtype: None,
                style: None,
                package: None,
                pin_descriptions: Seq::empty(),
                pin_functions: Seq::empty(),
                pincount: None,
                value: None,
                tol: None,
                ntol: None,
                ptol: None,
                volts: None,
                desc: None,
                attributes: Seq::empty(),
            },
        ),
    }
}

/// The device `d` after the line `kp`, or the error of that line.
pub open spec fn spec_device_update(d: DeviceView, kp: KeywordParamView) -> Result<
    DeviceView,
    ParseErrorView,
> {
    let p = kp.parameter;
    match Keyword::spec_of(kp.keyword) {
        Keyword::Part => match first_wins(d.part, whole(spec_part_name(p))) {
            Ok(part) => Ok(DeviceView { part, ..d }),
            Err(e) => Err(e),
        },
        Keyword::Type => match first_wins(d.dtype, whole(spec_string(p))) {
            Ok(dtype) => Ok(DeviceView { dtype, ..d }),
            Err(e) => Err(e),
        },
        Keyword::Style => match first_wins(d.style, whole(spec_string(p))) {
            Ok(style) => Ok(DeviceView { style, ..d }),
            Err(e) => Err(e),
        },
        Keyword::Package => match first_wins(d.package, whole(spec_string(p))) {
            Ok(package) => Ok(DeviceView { package, ..d }),
            Err(e) => Err(e),
        },
        Keyword::Pindesc => match spec_pin_text(p) {
            Ok(pin) => Ok(DeviceView { pin_descriptions: d.pin_descriptions.push(pin), ..d }),
            Err(e) => Err(e),
        },
        Keyword::Pinfunct => match spec_pin_text(p) {
            Ok(pin) => Ok(DeviceView { pin_functions: d.pin_functions.push(pin), ..d }),
            Err(e) => Err(e),
        },
        Keyword::Pincount => match first_wins(d.pincount, whole(spec_p_integer(p))) {
            Ok(pincount) => Ok(DeviceView { pincount, ..d }),
            Err(e) => Err(e),
        },
        Keyword::Value => match first_wins(d.value, whole(spec_string(p))) {
            Ok(value) => Ok(DeviceView { value, ..d }),
            Err(e) => Err(e),
        },
        Keyword::Tol => match first_wins(d.tol, whole(spec_string(p))) {
            Ok(tol) => Ok(DeviceView { tol, ..d }),
            Err(e) => Err(e),
        },
        Keyword::Ntol => match first_wins(d.ntol, whole(spec_string(p))) {
            Ok(ntol) => Ok(DeviceView { ntol, ..d }),
            Err(e) => Err(e),
        },
        Keyword::Ptol => match first_wins(d.ptol, whole(spec_string(p))) {
            Ok(ptol) => Ok(DeviceView { ptol, ..d }),
            Err(e) => Err(e),
        },
        Keyword::Volts => match first_wins(d.volts, whole(spec_string(p))) {
            Ok(volts) => Ok(DeviceView { volts, ..d }),
            Err(e) => Err(e),
        },
        Keyword::Desc => match first_wins(d.desc, whole(spec_string(p))) {
            Ok(desc) => Ok(DeviceView { desc, ..d }),
            Err(e) => Err(e),
        },
        Keyword::Attribute => match whole(spec_attrib_ref(p)) {
            Ok(a) => Ok(DeviceView { attributes: d.attributes.push(a), ..d }),
            Err(e) => Err(e),
        },
        _ => Err(
            ParseErrorView::UnexpectedKeyword {
                section: SectionKind::Devices,
                keyword: kp.keyword,
            },
        ),
    }
}

/// The state of the builder of the section: the devices that are complete,
/// and the one that is open.
pub ghost struct DevicesParserView {
    pub devices: Seq<DeviceView>,
    pub open: Option<DeviceView>,
}

/// The devices of `state` with the open one closed.
pub open spec fn spec_devices_flushed(state: DevicesParserView) -> Seq<DeviceView> {
    match state.open {
        Some(d) => state.devices.push(d),
        None => state.devices,
    }
}

/// The state of the builder after the line `kp`.
pub open spec fn spec_devices_step(state: DevicesParserView, kp: KeywordParamView) -> Result<
    DevicesParserView,
    ParseErrorView,
> {
    if Keyword::spec_of(kp.keyword) == Keyword::Device {
        match spec_device_new(kp.parameter) {
            Ok(d) => Ok(DevicesParserView { devices: spec_devices_flushed(state), open: Some(d) }),
            Err(e) => Err(e),
        }
    } else {
        match state.open {
            Some(d) => match spec_device_update(d, kp) {
                Ok(d) => Ok(DevicesParserView { devices: state.devices, open: Some(d) }),
                Err(e) => Err(e),
            },
            None => Err(
                ParseErrorView::UnexpectedKeyword {
                    section: SectionKind::Devices,
                    keyword: kp.keyword,
                },
            ),
        }
    }
}

/// The devices that the lines of a `DEVICES` section describe.
pub open spec fn spec_parse_devices(lines: Seq<KeywordParamView>) -> Result<
    Seq<DeviceView>,
    ParseErrorView,
> {
    match run(
        |s: DevicesParserView, kp: KeywordParamView| spec_devices_step(s, kp),
        DevicesParserView { devices: Seq::empty(), open: None },
        lines,
    ) {
        Ok(state) => Ok(spec_devices_flushed(state)),
        Err(e) => Err(e),
    }
}

impl PinDesc {
    /// Decodes the parameter of a `PINDESC` line.
    pub fn from_parameters(params: &str) -> (r: Result<PinDesc, ParseError>)
        ensures
            agrees_whole(r, spec_pin_text(params@)),
    {
        let (s1, pin_name) = pin_name(params)?;
        let (_, text) = sp_string(s1)?;
        Ok(PinDesc { pin_name, text })
    }
}

impl PinFunct {
    /// Decodes the parameter of a `PINFUNCT` line.
    pub fn from_parameters(params: &str) -> (r: Result<PinFunct, ParseError>)
        ensures
            agrees_whole(r, spec_pin_text(params@)),
    {
        let (s1, pin_name) = pin_name(params)?;
        let (_, text) = sp_string(s1)?;
        Ok(PinFunct { pin_name, text })
    }
}

impl Device {
    /// Opens the device that the parameter of a `DEVICE` line names.
    pub fn from_parameters(params: &str) -> (r: Result<Device, ParseError>)
        ensures
            agrees_whole(r, spec_device_new(params@)),
    {
        let (_, name) = part_name(params)?;
        let d = Device {
            name,
            part: None,
            dtype: None,
            style: None,
            package: None,
            pin_descriptions: Vec::new(),
            pin_functions: Vec::new(),
            pincount: None,
            value: None,
            tol: None,
            ntol: None,
            ptol: None,
            volts: None,
            desc: None,
            attributes: Vec::new(),
        };
        assert(d.deep_view().pin_descriptions =~= Seq::empty());
        assert(d.deep_view().pin_functions =~= Seq::empty());
        assert(d.deep_view().attributes =~= Seq::empty());
        Ok(d)
    }

    /// Applies the line `kp` to the device. On an error the device is as before.
    pub fn update(&mut self, kp: &KeywordParam) -> (r: Result<(), ParseError>)
        ensures
            match r {
                Ok(_) => spec_device_update(old(self).deep_view(), kp.deep_view()) == Ok::<
                    DeviceView,
                    ParseErrorView,
                >(final(self).deep_view()),
                Err(e) => spec_device_update(old(self).deep_view(), kp.deep_view()) == Err::<
                    DeviceView,
                    ParseErrorView,
                >(e.deep_view()) && *final(self) == *old(self),
            },
    {
        match Keyword::of(kp.keyword) {
            Keyword::Part => {
                if self.part.is_none() {
                    let (_, part) = part_name(kp.parameter)?;
                    self.part = Some(part);
                }
                Ok(())
            },
            Keyword::Type => {
                if self.dtype.is_none() {
                    let (_, dtype) = string(kp.parameter)?;
                    self.dtype = Some(dtype);
                }
                Ok(())
            },
            Keyword::Style => {
                if self.style.is_none() {
                    let (_, style) = string(kp.parameter)?;
                    self.style = Some(style);
                }
                Ok(())
            },
            Keyword::Package => {
                if self.package.is_none() {
                    let (_, package) = string(kp.parameter)?;
                    self.package = Some(package);
                }
                Ok(())
            },
            Keyword::Pindesc => {
                let pin = PinDesc::from_parameters(kp.parameter)?;
                let ghost before = self.pin_descriptions.deep_view();
                self.pin_descriptions.push(pin);
                assert(self.pin_descriptions.deep_view() =~= before.push(pin.deep_view()));
                Ok(())
            },
            Keyword::Pinfunct => {
                let pin = PinFunct::from_parameters(kp.parameter)?;
                let ghost before = self.pin_functions.deep_view();
                self.pin_functions.push(pin);
                assert(self.pin_functions.deep_view() =~= before.push(pin.deep_view()));
                Ok(())
            },
            Keyword::Pincount => {
                if self.pincount.is_none() {
                    let (_, pincount) = p_integer(kp.parameter)?;
                    self.pincount = Some(pincount);
                }
                Ok(())
            },
            Keyword::Value => {
                if self.value.is_none() {
                    let (_, value) = string(kp.parameter)?;
                    self.value = Some(value);
                }
                Ok(())
            },
            Keyword::Tol => {
                if self.tol.is_none() {
                    let (_, tol) = string(kp.parameter)?;
                    self.tol = Some(tol);
                }
                Ok(())
            },
            Keyword::Ntol => {
                if self.ntol.is_none() {
                    let (_, ntol) = string(kp.parameter)?;
                    self.ntol = Some(ntol);
                }
                Ok(())
            },
            Keyword::Ptol => {
                if self.ptol.is_none() {
                    let (_, ptol) = string(kp.parameter)?;
                    self.ptol = Some(ptol);
                }
                Ok(())
            },
            Keyword::Volts => {
                if self.volts.is_none() {
                    let (_, volts) = string(kp.parameter)?;
                    self.volts = Some(volts);
                }
                Ok(())
            },
            Keyword::Desc => {
                if self.desc.is_none() {
                    let (_, desc) = string(kp.parameter)?;
                    self.desc = Some(desc);
                }
                Ok(())
            },
            Keyword::Attribute => {
                let (_, attribute) = attrib_ref(kp.parameter)?;
                let ghost before = self.attributes.deep_view();
                self.attributes.push(attribute);
                assert(self.attributes.deep_view() =~= before.push(attribute.deep_view()));
                Ok(())
            },
            _ => Err(unexpected(SectionKind::Devices, kp.keyword)),
        }
    }
}

/// The builder of the `DEVICES` section.
#[derive(Debug, Clone, PartialEq, Eq)]
pub struct DevicesParser {
    /// The device that is open.
    pub state: Option<Device>,
    /// The devices that are complete.
    pub devices: Vec<Device>,
}

impl DeepView for DevicesParser {
    type V = DevicesParserView;

    open spec fn deep_view(&self) -> DevicesParserView {
        DevicesParserView { devices: self.devices.deep_view(), open: self.state.deep_view() }
    }
}

impl DevicesParser {
    /// The builder before the first line.
    pub fn new() -> (r: DevicesParser)
        ensures
            r.deep_view() == (DevicesParserView { devices: Seq::empty(), open: None }),
    {
        let r = DevicesParser { state: None, devices: Vec::new() };
        assert(r.devices.deep_view() =~= Seq::empty());
        r
    }

    /// Takes in the line `kp`. On an error the builder is as before.
    pub fn ingest(&mut self, kp: &KeywordParam) -> (r: Result<(), ParseError>)
        ensures
            match r {
                Ok(_) => spec_devices_step(old(self).deep_view(), kp.deep_view()) == Ok::<
                    DevicesParserView,
                    ParseErrorView,
                >(final(self).deep_view()),
                Err(e) => spec_devices_step(old(self).deep_view(), kp.deep_view()) == Err::<
                    DevicesParserView,
                    ParseErrorView,
                >(e.deep_view()) && final(self).deep_view() == old(self).deep_view(),
            },
    {
        match Keyword::of(kp.keyword) {
            Keyword::Device => {
                let device = Device::from_parameters(kp.parameter)?;
                if let Some(done) = self.state.take() {
                    let ghost before = self.devices.deep_view();
                    self.devices.push(done);
                    assert(self.devices.deep_view() =~= before.push(done.deep_view()));
                }
                self.state = Some(device);
                Ok(())
            },
            _ => match self.state.take() {
                Some(mut device) => {
                    let r = device.update(kp);
                    self.state = Some(device);
                    r
                },
                None => Err(unexpected(SectionKind::Devices, kp.keyword)),
            },
        }
    }

    /// Closes the open device and hands out the devices.
    pub fn finalize(self) -> (r: Result<Vec<Device>, ParseError>)
        ensures
            r matches Ok(devices) && devices.deep_view() == spec_devices_flushed(
                self.deep_view(),
            ),
    {
        let mut devices = self.devices;
        if let Some(device) = self.state {
            let ghost before = devices.deep_view();
            devices.push(device);
            assert(devices.deep_view() =~= before.push(device.deep_view()));
        }
        Ok(devices)
    }
}

/// Parse the `DEVICES` section of a GenCAD file.
pub fn parse_devices(params: &[KeywordParam]) -> (r: Result<Vec<Device>, ParseError>)
    ensures
        agrees_whole(r, spec_parse_devices(params.deep_view())),
{
    let ghost step = |s: DevicesParserView, kp: KeywordParamView| spec_devices_step(s, kp);
    let ghost init = DevicesParserView { devices: Seq::empty(), open: None };
    let ghost lines = params.deep_view();
    let mut sp = DevicesParser::new();
    let mut i: usize = 0;
    while i < params.len()
        invariant
            0 <= i <= params.len(),
            lines == params.deep_view(),
            step == |s: DevicesParserView, kp: KeywordParamView| spec_devices_step(s, kp),
            init == (DevicesParserView { devices: Seq::empty(), open: None }),
            run(step, init, lines.take(i as int)) == Ok::<DevicesParserView, ParseErrorView>(
                sp.deep_view(),
            ),
        decreases params.len() - i,
    {
        proof {
            lemma_run_step(step, init, lines, i as int);
            assert(lines[i as int] == params[i as int].deep_view());
        }
        match sp.ingest(&params[i]) {
            Ok(_) => {},
            Err(e) => {
                proof {
                    lemma_run_error(step, init, lines, i as int + 1);
                }
                return Err(e);
            },
        }
        i += 1;
    }
    assert(lines.take(i as int) == lines);
    sp.finalize()
}

/// Whether the field of `d` that the keyword `k` gives can be given once,
/// and is set.
pub open spec fn device_field_set(d: DeviceView, k: Keyword) -> bool {
    match k {
        Keyword::Part => d.part is Some,
        Keyword::Type => d.dtype is Some,
        Keyword::Style => d.style is Some,
        Keyword::Package => d.package is Some,
        Keyword::Pincount => d.pincount is Some,
        Keyword::Value => d.value is Some,
        Keyword::Tol => d.tol is Some,
        Keyword::Ntol => d.ntol is Some,
        Keyword::Ptol => d.ptol is Some,
        Keyword::Volts => d.volts is Some,
        Keyword::Desc => d.desc is Some,
        _ => false,
    }
}

/// The first value of a field that can be given once is kept: a further line
/// for a field that is set leaves the device as it is, whatever the line
/// holds, and is no error.
pub proof fn lemma_device_first_wins(d: DeviceView, kp: KeywordParamView)
    requires
        device_field_set(d, Keyword::spec_of(kp.keyword)),
    ensures
        spec_device_update(d, kp) == Ok::<DeviceView, ParseErrorView>(d),
{
}

/// Whether the keyword `k` gives a field of a device that can be given once.
pub open spec fn is_device_once(k: Keyword) -> bool {
    k == Keyword::Part || k == Keyword::Type || k == Keyword::Style || k == Keyword::Package || k
        == Keyword::Pincount || k == Keyword::Value || k == Keyword::Tol || k == Keyword::Ntol || k
        == Keyword::Ptol || k == Keyword::Volts || k == Keyword::Desc
}

/// Of two lines of one device with the same keyword of a field that can be
/// given once, the first decides the value: the second changes nothing,
/// whatever it holds, and is no error.
pub proof fn lemma_device_second_ignored(
    d: DeviceView,
    first: KeywordParamView,
    second: KeywordParamView,
)
    requires
        is_device_once(Keyword::spec_of(first.keyword)),
        Keyword::spec_of(first.keyword) == Keyword::spec_of(second.keyword),
        spec_device_update(d, first) is Ok,
    ensures
        spec_device_update(spec_device_update(d, first)->Ok_0, second) == spec_device_update(
            d,
            first,
        ),
{
    let after = spec_device_update(d, first)->Ok_0;
    assert(device_field_set(after, Keyword::spec_of(first.keyword)));
    lemma_device_first_wins(after, second);
}

/// The line of a pin description or pin function under the keyword `keyword`.
pub open spec fn pin_text_line(keyword: Seq<char>, v: PinTextView) -> Seq<char> {
    keyword + " "@ + string_text(v.pin_name) + " "@ + string_text(v.text)
}

/// The lines of the pin descriptions `v`.
pub open spec fn pin_descs_text(v: Seq<PinTextView>) -> Seq<char> {
    join_lines(v.map_values(|p: PinTextView| pin_text_line("PINDESC"@, p)))
}

/// The lines of the pin functions `v`.
pub open spec fn pin_functs_text(v: Seq<PinTextView>) -> Seq<char> {
    join_lines(v.map_values(|p: PinTextView| pin_text_line("PINFUNCT"@, p)))
}

/// The text of a string field that may be missing.
pub open spec fn opt_string_text(v: Option<Seq<char>>) -> Option<Seq<char>> {
    match v {
        Some(s) => Some(string_text(s)),
        None => None,
    }
}

/// The text of the pin count, which may be missing.
pub open spec fn opt_count_text(v: Option<u16>) -> Option<Seq<char>> {
    match v {
        Some(n) => Some(decimal_digits(n as nat)),
        None => None,
    }
}

/// The lines of the part `head` of a device.
pub open spec fn device_head_lines(v: DeviceView) -> Seq<Seq<char>> {
    Seq::empty().push("DEVICE "@ + string_text(v.name))
        + opt_line("PART "@, opt_string_text(v.part))
        + opt_line("TYPE "@, opt_string_text(v.dtype))
        + opt_line("STYLE "@, opt_string_text(v.style))
        + opt_line("PACKAGE "@, opt_string_text(v.package))
}

/// The lines of the part `pins` of a device.
pub open spec fn device_pins_lines(v: DeviceView) -> Seq<Seq<char>> {
    seq![pin_descs_text(v.pin_descriptions)]
        + seq![pin_functs_text(v.pin_functions)]
}

/// The lines of the part `values` of a device.
pub open spec fn device_values_lines(v: DeviceView) -> Seq<Seq<char>> {
    opt_line("PINCOUNT "@, opt_count_text(v.pincount))
        + opt_line("VALUE "@, opt_string_text(v.value))
        + opt_line("TOL "@, opt_string_text(v.tol))
}

/// The lines of the part `limits` of a device.
pub open spec fn device_limits_lines(v: DeviceView) -> Seq<Seq<char>> {
    opt_line("NTOL "@, opt_string_text(v.ntol))
        + opt_line("PTOL "@, opt_string_text(v.ptol))
        + opt_line("VOLTS "@, opt_string_text(v.volts))
        + opt_line("DESC "@, opt_string_text(v.desc))
}

/// The lines of the part `tail` of a device.
pub open spec fn device_tail_lines(v: DeviceView) -> Seq<Seq<char>> {
    seq![attributes_text(v.attributes)]
}

/// The lines of a device, in the order in which they are written: the
/// opening line, part, type, style, package, the pin descriptions, the pin
/// functions, pin count, value, the tolerances, voltage, description, and the
/// attributes. A field that is missing has no line; a list that is empty has
/// an empty one.
pub open spec fn device_lines(v: DeviceView) -> Seq<Seq<char>> {
    device_head_lines(v) + device_pins_lines(v) + device_values_lines(v) + device_limits_lines(v)
        + device_tail_lines(v)
}

/// The text of a device.
pub open spec fn device_text(v: DeviceView) -> Seq<char> {
    join_lines(device_lines(v))
}

/// The text of the `DEVICES` section: the opening line, the devices, the
/// closing line.
pub open spec fn devices_text(v: Seq<DeviceView>) -> Seq<char> {
    join_lines(
        seq!["$DEVICES"@] + v.map_values(|d: DeviceView| device_text(d)) + seq!["$ENDDEVICES"@],
    )
}

impl ToGencadString for PinDesc {
    open spec fn gencad(&self) -> Seq<char> {
        pin_text_line("PINDESC"@, self.deep_view())
    }

    fn to_gencad_string(&self) -> (r: String) {
        let mut out = concat("PINDESC", " ");
        out.append(self.pin_name.to_gencad_string().as_str());
        out.append(" ");
        out.append(self.text.to_gencad_string().as_str());
        out
    }
}

impl ToGencadString for Vec<PinDesc> {
    open spec fn gencad(&self) -> Seq<char> {
        pin_descs_text(self.deep_view())
    }

    fn to_gencad_string(&self) -> (r: String) {
        let lines = render_all(self);
        assert(lines.deep_view() =~= self.deep_view().map_values(
            |p: PinTextView| pin_text_line("PINDESC"@, p),
        ));
        join(&lines)
    }
}

impl ToGencadString for PinFunct {
    open spec fn gencad(&self) -> Seq<char> {
        pin_text_line("PINFUNCT"@, self.deep_view())
    }

    fn to_gencad_string(&self) -> (r: String) {
        let mut out = concat("PINFUNCT", " ");
        out.append(self.pin_name.to_gencad_string().as_str());
        out.append(" ");
        out.append(self.text.to_gencad_string().as_str());
        out
    }
}

impl ToGencadString for Vec<PinFunct> {
    open spec fn gencad(&self) -> Seq<char> {
        pin_functs_text(self.deep_view())
    }

    fn to_gencad_string(&self) -> (r: String) {
        let lines = render_all(self);
        assert(lines.deep_view() =~= self.deep_view().map_values(
            |p: PinTextView| pin_text_line("PINFUNCT"@, p),
        ));
        join(&lines)
    }
}

/// Renders the pin count, which may be missing.
pub fn render_count(count: Option<u16>) -> (r: Option<String>)
    ensures
        r.deep_view() == opt_count_text(count),
{
    match count {
        Some(n) => {
            let mut out = String::new();
            push_decimal(&mut out, n);
            assert(out@ =~= decimal_digits(n as nat));
            Some(out)
        },
        None => None,
    }
}

impl Device {
    /// The opening line and the lines of part, type, style and package.
    fn head_lines(&self) -> (r: Vec<String>)
        ensures
            r.deep_view() == device_head_lines(self.deep_view()),
    {
        let mut lines: Vec<String> = Vec::new();
        assert(lines.deep_view() =~= Seq::empty());
        push_line(&mut lines, concat("DEVICE ", self.name.to_gencad_string().as_str()));
        push_opt_line(&mut lines, "PART ", render_opt(&self.part));
        push_opt_line(&mut lines, "TYPE ", render_opt(&self.dtype));
        push_opt_line(&mut lines, "STYLE ", render_opt(&self.style));
        push_opt_line(&mut lines, "PACKAGE ", render_opt(&self.package));
        lines
    }

    /// The lines of the pin descriptions and of the pin functions.
    fn pins_lines(&self) -> (r: Vec<String>)
        ensures
            r.deep_view() == device_pins_lines(self.deep_view()),
    {
        let mut lines: Vec<String> = Vec::new();
        lines.push(self.pin_descriptions.to_gencad_string());
        lines.push(self.pin_functions.to_gencad_string());
        assert(lines.deep_view() =~= device_pins_lines(self.deep_view()));
        lines
    }

    /// The lines of pin count, value and tolerance.
    fn values_lines(&self) -> (r: Vec<String>)
        ensures
            r.deep_view() == device_values_lines(self.deep_view()),
    {
        let mut lines: Vec<String> = Vec::new();
        assert(lines.deep_view() =~= Seq::empty());
        push_opt_line(&mut lines, "PINCOUNT ", render_count(self.pincount));
        push_opt_line(&mut lines, "VALUE ", render_opt(&self.value));
        push_opt_line(&mut lines, "TOL ", render_opt(&self.tol));
        assert(lines.deep_view() =~= device_values_lines(self.deep_view()));
        lines
    }

    /// The lines of the two tolerances, voltage and description.
    fn limits_lines(&self) -> (r: Vec<String>)
        ensures
            r.deep_view() == device_limits_lines(self.deep_view()),
    {
        let mut lines: Vec<String> = Vec::new();
        assert(lines.deep_view() =~= Seq::empty());
        push_opt_line(&mut lines, "NTOL ", render_opt(&self.ntol));
        push_opt_line(&mut lines, "PTOL ", render_opt(&self.ptol));
        push_opt_line(&mut lines, "VOLTS ", render_opt(&self.volts));
        push_opt_line(&mut lines, "DESC ", render_opt(&self.desc));
        assert(lines.deep_view() =~= device_limits_lines(self.deep_view()));
        lines
    }
}

impl ToGencadString for Device {
    open spec fn gencad(&self) -> Seq<char> {
        device_text(self.deep_view())
    }

    fn to_gencad_string(&self) -> (r: String) {
        let mut lines = self.head_lines();
        extend_lines(&mut lines, self.pins_lines());
        extend_lines(&mut lines, self.values_lines());
        extend_lines(&mut lines, self.limits_lines());
        let ghost body = lines.deep_view();
        push_line(&mut lines, self.attributes.to_gencad_string());
        assert(lines.deep_view() =~= body + device_tail_lines(self.deep_view()));
        join(&lines)
    }
}

impl ToGencadString for Vec<Device> {
    open spec fn gencad(&self) -> Seq<char> {
        devices_text(self.deep_view())
    }

    fn to_gencad_string(&self) -> (r: String) {
        let mut lines: Vec<String> = Vec::new();
        lines.push(String::from_str("$DEVICES"));
        assert(lines.deep_view() =~= seq!["$DEVICES"@]);
        let devices = render_all(self);
        assert(devices.deep_view() =~= self.deep_view().map_values(
            |d: DeviceView| device_text(d),
        ));
        extend_lines(&mut lines, devices);
        let ghost body = lines.deep_view();
        push_line(&mut lines, String::from_str("$ENDDEVICES"));
        assert(lines.deep_view() =~= body + seq!["$ENDDEVICES"@]);
        join(&lines)
    }
}

/// Whether the pin text `v` can be written and read back.
pub open spec fn pin_text_ok(v: PinTextView) -> bool {
    is_writable(v.pin_name) && is_writable(v.text)
}

/// Whether the device `v` can be written and read back: its strings, its pin
/// texts and its attributes can be written.
pub open spec fn device_ok(v: DeviceView) -> bool {
    &&& is_writable(v.name)
    &&& v.part matches Some(s) ==> is_writable(s)
    &&& v.dtype matches Some(s) ==> is_writable(s)
    &&& v.style matches Some(s) ==> is_writable(s)
    &&& v.package matches Some(s) ==> is_writable(s)
    &&& forall|i: int|
        0 <= i < v.pin_descriptions.len() ==> pin_text_ok(#[trigger] v.pin_descriptions[i])
    &&& forall|i: int| 0 <= i < v.pin_functions.len() ==> pin_text_ok(#[trigger] v.pin_functions[i])
    &&& v.value matches Some(s) ==> is_writable(s)
    &&& v.tol matches Some(s) ==> is_writable(s)
    &&& v.ntol matches Some(s) ==> is_writable(s)
    &&& v.ptol matches Some(s) ==> is_writable(s)
    &&& v.volts matches Some(s) ==> is_writable(s)
    &&& v.desc matches Some(s) ==> is_writable(s)
    &&& attributes_ok(v.attributes)
}

/// The parameter of the line of a pin text.
pub open spec fn pin_text_parameter(v: PinTextView) -> Seq<char> {
    string_text(v.pin_name) + " "@ + string_text(v.text)
}

/// The statement of a pin text under the keyword `keyword`.
pub open spec fn pin_statement(keyword: Seq<char>, v: PinTextView) -> KeywordParamView {
    KeywordParamView { keyword, parameter: pin_text_parameter(v) }
}

/// A pin text alone on its line is read back.
pub proof fn lemma_whole_pin_text(v: PinTextView)
    requires
        pin_text_ok(v),
    ensures
        spec_pin_text(pin_text_parameter(v)) == Ok::<PinTextView, ParseErrorView>(v),
        one_line(pin_text_parameter(v)),
{
    reveal_strlit(" ");
    let none = Seq::<char>::empty();
    let tail = " "@ + (string_text(v.text) + none);
    lemma_sp_string_round_trip(v.text, none);
    lemma_string_round_trip(v.pin_name, tail);
    assert(pin_text_parameter(v) =~= string_text(v.pin_name) + tail);
    lemma_string_one_line(v.pin_name);
    lemma_string_one_line(v.text);
    lemma_one_line_concat(string_text(v.pin_name), " "@);
    lemma_one_line_concat(string_text(v.pin_name) + " "@, string_text(v.text));
}

/// Pin texts that are written one per line under a keyword are read as their
/// statements.
proof fn lemma_reads_pin_texts(keyword: Seq<char>, v: Seq<PinTextView>)
    requires
        keyword.len() > 0,
        forall|i: int| 0 <= i < keyword.len() ==> 'A' <= #[trigger] keyword[i] <= 'Z',
        forall|i: int| 0 <= i < v.len() ==> pin_text_ok(#[trigger] v[i]),
    ensures
        reads_as(
            join_lines(v.map_values(|p: PinTextView| pin_text_line(keyword, p))),
            v.map_values(|p: PinTextView| pin_statement(keyword, p)),
        ),
{
    assert forall|i: int| 0 <= i < v.len() implies reads_as(
        pin_text_line(keyword, #[trigger] v[i]),
        seq![pin_statement(keyword, v[i])],
    ) by {
        lemma_whole_pin_text(v[i]);
        lemma_reads_keyword_line(keyword + " "@, keyword, pin_text_parameter(v[i]));
        assert(pin_text_line(keyword, v[i]) =~= keyword + " "@ + pin_text_parameter(v[i]));
    }
    lemma_reads_each(
        v,
        |p: PinTextView| pin_text_line(keyword, p),
        |p: PinTextView| pin_statement(keyword, p),
    );
}

/// The statements of the part `head` of a device.
pub open spec fn device_head_statements(v: DeviceView) -> Seq<KeywordParamView> {
    seq![KeywordParamView { keyword: "DEVICE"@, parameter: string_text(v.name) }]
        + opt_statement("PART"@, opt_string_text(v.part))
        + opt_statement("TYPE"@, opt_string_text(v.dtype))
        + opt_statement("STYLE"@, opt_string_text(v.style))
        + opt_statement("PACKAGE"@, opt_string_text(v.package))
}

/// The lines of the part `head` of a device are read as its statements.
proof fn lemma_device_head_reads(v: DeviceView)
    requires
        device_ok(v),
    ensures
        reads_as(join_lines(device_head_lines(v)), device_head_statements(v)),
        device_head_lines(v).len() == 0 ==> device_head_statements(v).len() == 0,
{
    reveal_strlit(" ");
    lemma_reads_empty();
    let none = Seq::<Seq<char>>::empty();
    assert(join_lines(none) =~= Seq::<char>::empty());
    reveal_strlit("DEVICE ");
    reveal_strlit("DEVICE");
    assert("DEVICE "@ =~= "DEVICE"@ + " "@);
    lemma_keyword(Keyword::Device);
    lemma_whole_string(v.name);
    lemma_reads_keyword_line("DEVICE "@, "DEVICE"@, string_text(v.name));
    lemma_reads_more(
        none,
        Seq::empty(),
        "DEVICE "@ + string_text(v.name),
        seq![KeywordParamView { keyword: "DEVICE"@, parameter: string_text(v.name) }],
    );
    let t0 = none.push("DEVICE "@ + string_text(v.name));
    let s0 = Seq::<KeywordParamView>::empty() + seq![
        KeywordParamView { keyword: "DEVICE"@, parameter: string_text(v.name) },
    ];
    reveal_strlit("PART ");
    reveal_strlit("PART");
    assert("PART "@ =~= "PART"@ + " "@);
    lemma_keyword(Keyword::Part);
    if let Some(s) = v.part {
        lemma_whole_string(s);
    }
    lemma_reads_opt(t0, s0, "PART "@, "PART"@, opt_string_text(v.part));
    let t1 = t0 + opt_line("PART "@, opt_string_text(v.part));
    let s1 = s0 + opt_statement("PART"@, opt_string_text(v.part));
    assert(t1.len() == 0 ==> s1.len() == 0);
    reveal_strlit("TYPE ");
    reveal_strlit("TYPE");
    assert("TYPE "@ =~= "TYPE"@ + " "@);
    lemma_keyword(Keyword::Type);
    if let Some(s) = v.dtype {
        lemma_whole_string(s);
    }
    lemma_reads_opt(t1, s1, "TYPE "@, "TYPE"@, opt_string_text(v.dtype));
    let t2 = t1 + opt_line("TYPE "@, opt_string_text(v.dtype));
    let s2 = s1 + opt_statement("TYPE"@, opt_string_text(v.dtype));
    assert(t2.len() == 0 ==> s2.len() == 0);
    reveal_strlit("STYLE ");
    reveal_strlit("STYLE");
    assert("STYLE "@ =~= "STYLE"@ + " "@);
    lemma_keyword(Keyword::Style);
    if let Some(s) = v.style {
        lemma_whole_string(s);
    }
    lemma_reads_opt(t2, s2, "STYLE "@, "STYLE"@, opt_string_text(v.style));
    let t3 = t2 + opt_line("STYLE "@, opt_string_text(v.style));
    let s3 = s2 + opt_statement("STYLE"@, opt_string_text(v.style));
    assert(t3.len() == 0 ==> s3.len() == 0);
    reveal_strlit("PACKAGE ");
    reveal_strlit("PACKAGE");
    assert("PACKAGE "@ =~= "PACKAGE"@ + " "@);
    lemma_keyword(Keyword::Package);
    if let Some(s) = v.package {
        lemma_whole_string(s);
    }
    lemma_reads_opt(t3, s3, "PACKAGE "@, "PACKAGE"@, opt_string_text(v.package));
    let t4 = t3 + opt_line("PACKAGE "@, opt_string_text(v.package));
    let s4 = s3 + opt_statement("PACKAGE"@, opt_string_text(v.package));
    assert(t4.len() == 0 ==> s4.len() == 0);
    assert(t4 =~= device_head_lines(v));
    assert(s4 =~= device_head_statements(v));
}

/// The statements of the part `pins` of a device.
pub open spec fn device_pins_statements(v: DeviceView) -> Seq<KeywordParamView> {
    v.pin_descriptions.map_values(|p: PinTextView| pin_statement("PINDESC"@, p))
        + v.pin_functions.map_values(|p: PinTextView| pin_statement("PINFUNCT"@, p))
}

/// The lines of the part `pins` of a device are read as its statements.
proof fn lemma_device_pins_reads(v: DeviceView)
    requires
        device_ok(v),
    ensures
        reads_as(join_lines(device_pins_lines(v)), device_pins_statements(v)),
        device_pins_lines(v).len() == 0 ==> device_pins_statements(v).len() == 0,
{
    reveal_strlit(" ");
    lemma_reads_empty();
    let none = Seq::<Seq<char>>::empty();
    assert(join_lines(none) =~= Seq::<char>::empty());
    let t0 = none;
    let s0 = Seq::<KeywordParamView>::empty();
    reveal_strlit("PINDESC");
    lemma_keyword(Keyword::Pindesc);
    lemma_reads_pin_texts("PINDESC"@, v.pin_descriptions);
    lemma_reads_more(t0, s0, pin_descs_text(v.pin_descriptions), v.pin_descriptions.map_values(|p: PinTextView| pin_statement("PINDESC"@, p)));
    let t1 = t0 + seq![pin_descs_text(v.pin_descriptions)];
    assert(t1 =~= t0.push(pin_descs_text(v.pin_descriptions)));
    let s1 = s0 + v.pin_descriptions.map_values(|p: PinTextView| pin_statement("PINDESC"@, p));
    assert(t1.len() == 0 ==> s1.len() == 0);
    reveal_strlit("PINFUNCT");
    lemma_keyword(Keyword::Pinfunct);
    lemma_reads_pin_texts("PINFUNCT"@, v.pin_functions);
    lemma_reads_more(t1, s1, pin_functs_text(v.pin_functions), v.pin_functions.map_values(|p: PinTextView| pin_statement("PINFUNCT"@, p)));
    let t2 = t1 + seq![pin_functs_text(v.pin_functions)];
    assert(t2 =~= t1.push(pin_functs_text(v.pin_functions)));
    let s2 = s1 + v.pin_functions.map_values(|p: PinTextView| pin_statement("PINFUNCT"@, p));
    assert(t2.len() == 0 ==> s2.len() == 0);
    assert(t2 =~= device_pins_lines(v));
    assert(s2 =~= device_pins_statements(v));
}

/// The statements of the part `values` of a device.
pub open spec fn device_values_statements(v: DeviceView) -> Seq<KeywordParamView> {
    opt_statement("PINCOUNT"@, opt_count_text(v.pincount))
        + opt_statement("VALUE"@, opt_string_text(v.value))
        + opt_statement("TOL"@, opt_string_text(v.tol))
}

/// The lines of the part `values` of a device are read as its statements.
proof fn lemma_device_values_reads(v: DeviceView)
    requires
        device_ok(v),
    ensures
        reads_as(join_lines(device_values_lines(v)), device_values_statements(v)),
        device_values_lines(v).len() == 0 ==> device_values_statements(v).len() == 0,
{
    reveal_strlit(" ");
    lemma_reads_empty();
    let none = Seq::<Seq<char>>::empty();
    assert(join_lines(none) =~= Seq::<char>::empty());
    let t0 = none;
    let s0 = Seq::<KeywordParamView>::empty();
    reveal_strlit("PINCOUNT ");
    reveal_strlit("PINCOUNT");
    assert("PINCOUNT "@ =~= "PINCOUNT"@ + " "@);
    lemma_keyword(Keyword::Pincount);
    if let Some(n) = v.pincount {
        lemma_whole_count(n);
    }
    lemma_reads_opt(t0, s0, "PINCOUNT "@, "PINCOUNT"@, opt_count_text(v.pincount));
    let t1 = t0 + opt_line("PINCOUNT "@, opt_count_text(v.pincount));
    let s1 = s0 + opt_statement("PINCOUNT"@, opt_count_text(v.pincount));
    assert(t1.len() == 0 ==> s1.len() == 0);
    reveal_strlit("VALUE ");
    reveal_strlit("VALUE");
    assert("VALUE "@ =~= "VALUE"@ + " "@);
    lemma_keyword(Keyword::Value);
    if let Some(s) = v.value {
        lemma_whole_string(s);
    }
    lemma_reads_opt(t1, s1, "VALUE "@, "VALUE"@, opt_string_text(v.value));
    let t2 = t1 + opt_line("VALUE "@, opt_string_text(v.value));
    let s2 = s1 + opt_statement("VALUE"@, opt_string_text(v.value));
    assert(t2.len() == 0 ==> s2.len() == 0);
    reveal_strlit("TOL ");
    reveal_strlit("TOL");
    assert("TOL "@ =~= "TOL"@ + " "@);
    lemma_keyword(Keyword::Tol);
    if let Some(s) = v.tol {
        lemma_whole_string(s);
    }
    lemma_reads_opt(t2, s2, "TOL "@, "TOL"@, opt_string_text(v.tol));
    let t3 = t2 + opt_line("TOL "@, opt_string_text(v.tol));
    let s3 = s2 + opt_statement("TOL"@, opt_string_text(v.tol));
    assert(t3.len() == 0 ==> s3.len() == 0);
    assert(t3 =~= device_values_lines(v));
    assert(s3 =~= device_values_statements(v));
}

/// The statements of the part `limits` of a device.
pub open spec fn device_limits_statements(v: DeviceView) -> Seq<KeywordParamView> {
    opt_statement("NTOL"@, opt_string_text(v.ntol))
        + opt_statement("PTOL"@, opt_string_text(v.ptol))
        + opt_statement("VOLTS"@, opt_string_text(v.volts))
        + opt_statement("DESC"@, opt_string_text(v.desc))
}

/// The lines of the part `limits` of a device are read as its statements.
proof fn lemma_device_limits_reads(v: DeviceView)
    requires
        device_ok(v),
    ensures
        reads_as(join_lines(device_limits_lines(v)), device_limits_statements(v)),
        device_limits_lines(v).len() == 0 ==> device_limits_statements(v).len() == 0,
{
    reveal_strlit(" ");
    lemma_reads_empty();
    let none = Seq::<Seq<char>>::empty();
    assert(join_lines(none) =~= Seq::<char>::empty());
    let t0 = none;
    let s0 = Seq::<KeywordParamView>::empty();
    reveal_strlit("NTOL ");
    reveal_strlit("NTOL");
    assert("NTOL "@ =~= "NTOL"@ + " "@);
    lemma_keyword(Keyword::Ntol);
    if let Some(s) = v.ntol {
        lemma_whole_string(s);
    }
    lemma_reads_opt(t0, s0, "NTOL "@, "NTOL"@, opt_string_text(v.ntol));
    let t1 = t0 + opt_line("NTOL "@, opt_string_text(v.ntol));
    let s1 = s0 + opt_statement("NTOL"@, opt_string_text(v.ntol));
    assert(t1.len() == 0 ==> s1.len() == 0);
    reveal_strlit("PTOL ");
    reveal_strlit("PTOL");
    assert("PTOL "@ =~= "PTOL"@ + " "@);
    lemma_keyword(Keyword::Ptol);
    if let Some(s) = v.ptol {
        lemma_whole_string(s);
    }
    lemma_reads_opt(t1, s1, "PTOL "@, "PTOL"@, opt_string_text(v.ptol));
    let t2 = t1 + opt_line("PTOL "@, opt_string_text(v.ptol));
    let s2 = s1 + opt_statement("PTOL"@, opt_string_text(v.ptol));
    assert(t2.len() == 0 ==> s2.len() == 0);
    reveal_strlit("VOLTS ");
    reveal_strlit("VOLTS");
    assert("VOLTS "@ =~= "VOLTS"@ + " "@);
    lemma_keyword(Keyword::Volts);
    if let Some(s) = v.volts {
        lemma_whole_string(s);
    }
    lemma_reads_opt(t2, s2, "VOLTS "@, "VOLTS"@, opt_string_text(v.volts));
    let t3 = t2 + opt_line("VOLTS "@, opt_string_text(v.volts));
    let s3 = s2 + opt_statement("VOLTS"@, opt_string_text(v.volts));
    assert(t3.len() == 0 ==> s3.len() == 0);
    reveal_strlit("DESC ");
    reveal_strlit("DESC");
    assert("DESC "@ =~= "DESC"@ + " "@);
    lemma_keyword(Keyword::Desc);
    if let Some(s) = v.desc {
        lemma_whole_string(s);
    }
    lemma_reads_opt(t3, s3, "DESC "@, "DESC"@, opt_string_text(v.desc));
    let t4 = t3 + opt_line("DESC "@, opt_string_text(v.desc));
    let s4 = s3 + opt_statement("DESC"@, opt_string_text(v.desc));
    assert(t4.len() == 0 ==> s4.len() == 0);
    assert(t4 =~= device_limits_lines(v));
    assert(s4 =~= device_limits_statements(v));
}

/// The statements of the part `tail` of a device.
pub open spec fn device_tail_statements(v: DeviceView) -> Seq<KeywordParamView> {
    v.attributes.map_values(|a: AttributeView| attribute_statement(a))
}

/// The lines of the part `tail` of a device are read as its statements.
proof fn lemma_device_tail_reads(v: DeviceView)
    requires
        device_ok(v),
    ensures
        reads_as(join_lines(device_tail_lines(v)), device_tail_statements(v)),
        device_tail_lines(v).len() == 0 ==> device_tail_statements(v).len() == 0,
{
    reveal_strlit(" ");
    lemma_reads_empty();
    let none = Seq::<Seq<char>>::empty();
    assert(join_lines(none) =~= Seq::<char>::empty());
    let t0 = none;
    let s0 = Seq::<KeywordParamView>::empty();
    lemma_reads_attributes(v.attributes);
    lemma_reads_more(t0, s0, attributes_text(v.attributes), v.attributes.map_values(|a: AttributeView| attribute_statement(a)));
    let t1 = t0 + seq![attributes_text(v.attributes)];
    assert(t1 =~= t0.push(attributes_text(v.attributes)));
    let s1 = s0 + v.attributes.map_values(|a: AttributeView| attribute_statement(a));
    assert(t1.len() == 0 ==> s1.len() == 0);
    assert(t1 =~= device_tail_lines(v));
    assert(s1 =~= device_tail_statements(v));
}

/// The statements of a device, in the order of its lines.
pub open spec fn device_statements(v: DeviceView) -> Seq<KeywordParamView> {
    device_head_statements(v) + device_pins_statements(v) + device_values_statements(v)
        + device_limits_statements(v) + device_tail_statements(v)
}

/// The text of a device is read as its statements.
proof fn lemma_device_reads(v: DeviceView)
    requires
        device_ok(v),
    ensures
        reads_as(device_text(v), device_statements(v)),
{
    lemma_device_head_reads(v);
    lemma_device_pins_reads(v);
    lemma_device_values_reads(v);
    lemma_device_limits_reads(v);
    lemma_device_tail_reads(v);
    let a = device_head_lines(v);
    let b = device_pins_lines(v);
    let c = device_values_lines(v);
    let d = device_limits_lines(v);
    let e = device_tail_lines(v);
    lemma_reads_concat(a, device_head_statements(v), b, device_pins_statements(v));
    lemma_reads_concat(
        a + b,
        device_head_statements(v) + device_pins_statements(v),
        c,
        device_values_statements(v),
    );
    lemma_reads_concat(
        a + b + c,
        device_head_statements(v) + device_pins_statements(v) + device_values_statements(v),
        d,
        device_limits_statements(v),
    );
    lemma_reads_concat(
        a + b + c + d,
        device_head_statements(v) + device_pins_statements(v) + device_values_statements(v)
            + device_limits_statements(v),
        e,
        device_tail_statements(v),
    );
}

/// The device that a `DEVICE` line with the name `name` opens.
pub open spec fn device_opened(name: Seq<char>) -> DeviceView {
    DeviceView {
        name,
        part: None,
        dtype: None,
        style: None,
        package: None,
        pin_descriptions: Seq::empty(),
        pin_functions: Seq::empty(),
        pincount: None,
        value: None,
        tol: None,
        ntol: None,
        ptol: None,
        volts: None,
        desc: None,
        attributes: Seq::empty(),
    }
}

/// The device `v` as far as the part `head` of its lines gives it.
pub open spec fn device_upto_head(v: DeviceView) -> DeviceView {
    DeviceView {
        part: v.part,
        dtype: v.dtype,
        style: v.style,
        package: v.package,
        ..device_opened(v.name)
    }
}

/// The device `v` as far as the part `pins` of its lines gives it.
pub open spec fn device_upto_pins(v: DeviceView) -> DeviceView {
    DeviceView {
        pin_descriptions: v.pin_descriptions,
        pin_functions: v.pin_functions,
        ..device_upto_head(v)
    }
}

/// The device `v` as far as the part `values` of its lines gives it.
pub open spec fn device_upto_values(v: DeviceView) -> DeviceView {
    DeviceView {
        pincount: v.pincount,
        value: v.value,
        tol: v.tol,
        ..device_upto_pins(v)
    }
}

/// The device `v` as far as the part `limits` of its lines gives it.
pub open spec fn device_upto_limits(v: DeviceView) -> DeviceView {
    DeviceView {
        ntol: v.ntol,
        ptol: v.ptol,
        volts: v.volts,
        desc: v.desc,
        ..device_upto_values(v)
    }
}

/// The device `v` as far as the part `tail` of its lines gives it.
pub open spec fn device_upto_tail(v: DeviceView) -> DeviceView {
    DeviceView {
        attributes: v.attributes,
        ..device_upto_limits(v)
    }
}

/// The statements of the part `head` of a device close the device that is
/// open, open the device, and give it the fields of the part.
proof fn lemma_device_head_run(devices: Seq<DeviceView>, open: Option<DeviceView>, v: DeviceView)
    requires
        device_ok(v),
    ensures
        run(
            |s: DevicesParserView, kp: KeywordParamView| spec_devices_step(s, kp),
            DevicesParserView { devices, open },
            device_head_statements(v),
        ) == Ok::<DevicesParserView, ParseErrorView>(
            DevicesParserView {
                devices: spec_devices_flushed(DevicesParserView { devices, open }),
                open: Some(device_upto_head(v)),
            },
        ),
{
    let step = |s: DevicesParserView, kp: KeywordParamView| spec_devices_step(s, kp);
    let start = DevicesParserView { devices, open };
    let devices = spec_devices_flushed(start);
    lemma_keyword(Keyword::Device);
    lemma_whole_string(v.name);
    let d0 = device_opened(v.name);
    let st0 = DevicesParserView { devices, open: Some(d0) };
    let first = KeywordParamView { keyword: "DEVICE"@, parameter: string_text(v.name) };
    assert(spec_device_new(first.parameter) == Ok::<DeviceView, ParseErrorView>(d0));
    lemma_run_one(step, start, first);
    let a0 = seq![first];
    assert(run(step, start, a0) == Ok::<DevicesParserView, ParseErrorView>(st0));
    lemma_keyword(Keyword::Part);
    let d1 = DeviceView { part: v.part, ..d0 };
    let st1 = DevicesParserView { devices, open: Some(d1) };
    if let Some(s) = v.part {
        lemma_whole_string(s);
    }
    lemma_run_opt(step, st0, "PART"@, opt_string_text(v.part), st1);
    lemma_run_concat(step, start, a0, opt_statement("PART"@, opt_string_text(v.part)));
    let a1 = a0 + opt_statement("PART"@, opt_string_text(v.part));
    assert(run(step, start, a1) == Ok::<DevicesParserView, ParseErrorView>(st1));
    lemma_keyword(Keyword::Type);
    let d2 = DeviceView { dtype: v.dtype, ..d1 };
    let st2 = DevicesParserView { devices, open: Some(d2) };
    if let Some(s) = v.dtype {
        lemma_whole_string(s);
    }
    lemma_run_opt(step, st1, "TYPE"@, opt_string_text(v.dtype), st2);
    lemma_run_concat(step, start, a1, opt_statement("TYPE"@, opt_string_text(v.dtype)));
    let a2 = a1 + opt_statement("TYPE"@, opt_string_text(v.dtype));
    assert(run(step, start, a2) == Ok::<DevicesParserView, ParseErrorView>(st2));
    lemma_keyword(Keyword::Style);
    let d3 = DeviceView { style: v.style, ..d2 };
    let st3 = DevicesParserView { devices, open: Some(d3) };
    if let Some(s) = v.style {
        lemma_whole_string(s);
    }
    lemma_run_opt(step, st2, "STYLE"@, opt_string_text(v.style), st3);
    lemma_run_concat(step, start, a2, opt_statement("STYLE"@, opt_string_text(v.style)));
    let a3 = a2 + opt_statement("STYLE"@, opt_string_text(v.style));
    assert(run(step, start, a3) == Ok::<DevicesParserView, ParseErrorView>(st3));
    lemma_keyword(Keyword::Package);
    let d4 = DeviceView { package: v.package, ..d3 };
    let st4 = DevicesParserView { devices, open: Some(d4) };
    if let Some(s) = v.package {
        lemma_whole_string(s);
    }
    lemma_run_opt(step, st3, "PACKAGE"@, opt_string_text(v.package), st4);
    lemma_run_concat(step, start, a3, opt_statement("PACKAGE"@, opt_string_text(v.package)));
    let a4 = a3 + opt_statement("PACKAGE"@, opt_string_text(v.package));
    assert(run(step, start, a4) == Ok::<DevicesParserView, ParseErrorView>(st4));
    assert(a4 =~= device_head_statements(v));
    assert(d4 == device_upto_head(v));
}

/// The statements of the part `pins` of a device give the open device the
/// fields of the part.
proof fn lemma_device_pins_run(devices: Seq<DeviceView>, v: DeviceView)
    requires
        device_ok(v),
    ensures
        run(
            |s: DevicesParserView, kp: KeywordParamView| spec_devices_step(s, kp),
            DevicesParserView { devices, open: Some(device_upto_head(v)) },
            device_pins_statements(v),
        ) == Ok::<DevicesParserView, ParseErrorView>(
            DevicesParserView { devices, open: Some(device_upto_pins(v)) },
        ),
{
    let step = |s: DevicesParserView, kp: KeywordParamView| spec_devices_step(s, kp);
    let d0 = device_upto_head(v);
    let st0 = DevicesParserView { devices, open: Some(d0) };
    let start = st0;
    let a0 = Seq::<KeywordParamView>::empty();
    assert(run(step, start, a0) == Ok::<DevicesParserView, ParseErrorView>(st0));
    lemma_keyword(Keyword::Pindesc);
    let d1 = DeviceView { pin_descriptions: v.pin_descriptions, ..d0 };
    let st1 = DevicesParserView { devices, open: Some(d1) };
    let put0 = |s: DevicesParserView, list: Seq<PinTextView>|
        DevicesParserView { open: Some(DeviceView { pin_descriptions: list, ..s.open->0 }), ..s };
    let line0 = |p: PinTextView| pin_statement("PINDESC"@, p);
    assert forall|list: Seq<PinTextView>, j: int| 0 <= j < v.pin_descriptions.len() implies #[trigger] step(
        put0(st0, list),
        line0(v.pin_descriptions[j]),
    ) == Ok::<DevicesParserView, ParseErrorView>(put0(st0, list.push(v.pin_descriptions[j]))) by {
        lemma_whole_pin_text(v.pin_descriptions[j]);
    }
    lemma_run_each(step, put0, st0, Seq::empty(), v.pin_descriptions, line0);
    assert(put0(st0, Seq::empty()) == st0);
    assert(Seq::<PinTextView>::empty() + v.pin_descriptions =~= v.pin_descriptions);
    assert(put0(st0, v.pin_descriptions) == st1);
    assert(v.pin_descriptions.map_values(line0) =~= v.pin_descriptions.map_values(|p: PinTextView| pin_statement("PINDESC"@, p)));
    lemma_run_concat(step, start, a0, v.pin_descriptions.map_values(|p: PinTextView| pin_statement("PINDESC"@, p)));
    let a1 = a0 + v.pin_descriptions.map_values(|p: PinTextView| pin_statement("PINDESC"@, p));
    assert(run(step, start, a1) == Ok::<DevicesParserView, ParseErrorView>(st1));
    lemma_keyword(Keyword::Pinfunct);
    let d2 = DeviceView { pin_functions: v.pin_functions, ..d1 };
    let st2 = DevicesParserView { devices, open: Some(d2) };
    let put1 = |s: DevicesParserView, list: Seq<PinTextView>|
        DevicesParserView { open: Some(DeviceView { pin_functions: list, ..s.open->0 }), ..s };
    let line1 = |p: PinTextView| pin_statement("PINFUNCT"@, p);
    assert forall|list: Seq<PinTextView>, j: int| 0 <= j < v.pin_functions.len() implies #[trigger] step(
        put1(st1, list),
        line1(v.pin_functions[j]),
    ) == Ok::<DevicesParserView, ParseErrorView>(put1(st1, list.push(v.pin_functions[j]))) by {
        lemma_whole_pin_text(v.pin_functions[j]);
    }
    lemma_run_each(step, put1, st1, Seq::empty(), v.pin_functions, line1);
    assert(put1(st1, Seq::empty()) == st1);
    assert(Seq::<PinTextView>::empty() + v.pin_functions =~= v.pin_functions);
    assert(put1(st1, v.pin_functions) == st2);
    assert(v.pin_functions.map_values(line1) =~= v.pin_functions.map_values(|p: PinTextView| pin_statement("PINFUNCT"@, p)));
    lemma_run_concat(step, start, a1, v.pin_functions.map_values(|p: PinTextView| pin_statement("PINFUNCT"@, p)));
    let a2 = a1 + v.pin_functions.map_values(|p: PinTextView| pin_statement("PINFUNCT"@, p));
    assert(run(step, start, a2) == Ok::<DevicesParserView, ParseErrorView>(st2));
    assert(a2 =~= device_pins_statements(v));
    assert(d2 == device_upto_pins(v));
}

/// The statements of the part `values` of a device give the open device the
/// fields of the part.
proof fn lemma_device_values_run(devices: Seq<DeviceView>, v: DeviceView)
    requires
        device_ok(v),
    ensures
        run(
            |s: DevicesParserView, kp: KeywordParamView| spec_devices_step(s, kp),
            DevicesParserView { devices, open: Some(device_upto_pins(v)) },
            device_values_statements(v),
        ) == Ok::<DevicesParserView, ParseErrorView>(
            DevicesParserView { devices, open: Some(device_upto_values(v)) },
        ),
{
    let step = |s: DevicesParserView, kp: KeywordParamView| spec_devices_step(s, kp);
    let d0 = device_upto_pins(v);
    let st0 = DevicesParserView { devices, open: Some(d0) };
    let start = st0;
    let a0 = Seq::<KeywordParamView>::empty();
    assert(run(step, start, a0) == Ok::<DevicesParserView, ParseErrorView>(st0));
    lemma_keyword(Keyword::Pincount);
    let d1 = DeviceView { pincount: v.pincount, ..d0 };
    let st1 = DevicesParserView { devices, open: Some(d1) };
    if let Some(n) = v.pincount {
        lemma_whole_count(n);
    }
    lemma_run_opt(step, st0, "PINCOUNT"@, opt_count_text(v.pincount), st1);
    lemma_run_concat(step, start, a0, opt_statement("PINCOUNT"@, opt_count_text(v.pincount)));
    let a1 = a0 + opt_statement("PINCOUNT"@, opt_count_text(v.pincount));
    assert(run(step, start, a1) == Ok::<DevicesParserView, ParseErrorView>(st1));
    lemma_keyword(Keyword::Value);
    let d2 = DeviceView { value: v.value, ..d1 };
    let st2 = DevicesParserView { devices, open: Some(d2) };
    if let Some(s) = v.value {
        lemma_whole_string(s);
    }
    lemma_run_opt(step, st1, "VALUE"@, opt_string_text(v.value), st2);
    lemma_run_concat(step, start, a1, opt_statement("VALUE"@, opt_string_text(v.value)));
    let a2 = a1 + opt_statement("VALUE"@, opt_string_text(v.value));
    assert(run(step, start, a2) == Ok::<DevicesParserView, ParseErrorView>(st2));
    lemma_keyword(Keyword::Tol);
    let d3 = DeviceView { tol: v.tol, ..d2 };
    let st3 = DevicesParserView { devices, open: Some(d3) };
    if let Some(s) = v.tol {
        lemma_whole_string(s);
    }
    lemma_run_opt(step, st2, "TOL"@, opt_string_text(v.tol), st3);
    lemma_run_concat(step, start, a2, opt_statement("TOL"@, opt_string_text(v.tol)));
    let a3 = a2 + opt_statement("TOL"@, opt_string_text(v.tol));
    assert(run(step, start, a3) == Ok::<DevicesParserView, ParseErrorView>(st3));
    assert(a3 =~= device_values_statements(v));
    assert(d3 == device_upto_values(v));
}

/// The statements of the part `limits` of a device give the open device the
/// fields of the part.
proof fn lemma_device_limits_run(devices: Seq<DeviceView>, v: DeviceView)
    requires
        device_ok(v),
    ensures
        run(
            |s: DevicesParserView, kp: KeywordParamView| spec_devices_step(s, kp),
            DevicesParserView { devices, open: Some(device_upto_values(v)) },
            device_limits_statements(v),
        ) == Ok::<DevicesParserView, ParseErrorView>(
            DevicesParserView { devices, open: Some(device_upto_limits(v)) },
        ),
{
    let step = |s: DevicesParserView, kp: KeywordParamView| spec_devices_step(s, kp);
    let d0 = device_upto_values(v);
    let st0 = DevicesParserView { devices, open: Some(d0) };
    let start = st0;
    let a0 = Seq::<KeywordParamView>::empty();
    assert(run(step, start, a0) == Ok::<DevicesParserView, ParseErrorView>(st0));
    lemma_keyword(Keyword::Ntol);
    let d1 = DeviceView { ntol: v.ntol, ..d0 };
    let st1 = DevicesParserView { devices, open: Some(d1) };
    if let Some(s) = v.ntol {
        lemma_whole_string(s);
    }
    lemma_run_opt(step, st0, "NTOL"@, opt_string_text(v.ntol), st1);
    lemma_run_concat(step, start, a0, opt_statement("NTOL"@, opt_string_text(v.ntol)));
    let a1 = a0 + opt_statement("NTOL"@, opt_string_text(v.ntol));
    assert(run(step, start, a1) == Ok::<DevicesParserView, ParseErrorView>(st1));
    lemma_keyword(Keyword::Ptol);
    let d2 = DeviceView { ptol: v.ptol, ..d1 };
    let st2 = DevicesParserView { devices, open: Some(d2) };
    if let Some(s) = v.ptol {
        lemma_whole_string(s);
    }
    lemma_run_opt(step, st1, "PTOL"@, opt_string_text(v.ptol), st2);
    lemma_run_concat(step, start, a1, opt_statement("PTOL"@, opt_string_text(v.ptol)));
    let a2 = a1 + opt_statement("PTOL"@, opt_string_text(v.ptol));
    assert(run(step, start, a2) == Ok::<DevicesParserView, ParseErrorView>(st2));
    lemma_keyword(Keyword::Volts);
    let d3 = DeviceView { volts: v.volts, ..d2 };
    let st3 = DevicesParserView { devices, open: Some(d3) };
    if let Some(s) = v.volts {
        lemma_whole_string(s);
    }
    lemma_run_opt(step, st2, "VOLTS"@, opt_string_text(v.volts), st3);
    lemma_run_concat(step, start, a2, opt_statement("VOLTS"@, opt_string_text(v.volts)));
    let a3 = a2 + opt_statement("VOLTS"@, opt_string_text(v.volts));
    assert(run(step, start, a3) == Ok::<DevicesParserView, ParseErrorView>(st3));
    lemma_keyword(Keyword::Desc);
    let d4 = DeviceView { desc: v.desc, ..d3 };
    let st4 = DevicesParserView { devices, open: Some(d4) };
    if let Some(s) = v.desc {
        lemma_whole_string(s);
    }
    lemma_run_opt(step, st3, "DESC"@, opt_string_text(v.desc), st4);
    lemma_run_concat(step, start, a3, opt_statement("DESC"@, opt_string_text(v.desc)));
    let a4 = a3 + opt_statement("DESC"@, opt_string_text(v.desc));
    assert(run(step, start, a4) == Ok::<DevicesParserView, ParseErrorView>(st4));
    assert(a4 =~= device_limits_statements(v));
    assert(d4 == device_upto_limits(v));
}

/// The statements of the part `tail` of a device give the open device the
/// fields of the part.
proof fn lemma_device_tail_run(devices: Seq<DeviceView>, v: DeviceView)
    requires
        device_ok(v),
    ensures
        run(
            |s: DevicesParserView, kp: KeywordParamView| spec_devices_step(s, kp),
            DevicesParserView { devices, open: Some(device_upto_limits(v)) },
            device_tail_statements(v),
        ) == Ok::<DevicesParserView, ParseErrorView>(
            DevicesParserView { devices, open: Some(device_upto_tail(v)) },
        ),
{
    let step = |s: DevicesParserView, kp: KeywordParamView| spec_devices_step(s, kp);
    let d0 = device_upto_limits(v);
    let st0 = DevicesParserView { devices, open: Some(d0) };
    let start = st0;
    let a0 = Seq::<KeywordParamView>::empty();
    assert(run(step, start, a0) == Ok::<DevicesParserView, ParseErrorView>(st0));
    lemma_keyword(Keyword::Attribute);
    let d1 = DeviceView { attributes: v.attributes, ..d0 };
    let st1 = DevicesParserView { devices, open: Some(d1) };
    let put0 = |s: DevicesParserView, list: Seq<AttributeView>|
        DevicesParserView { open: Some(DeviceView { attributes: list, ..s.open->0 }), ..s };
    let line0 = |a: AttributeView| attribute_statement(a);
    assert forall|list: Seq<AttributeView>, j: int| 0 <= j < v.attributes.len() implies #[trigger] step(
        put0(st0, list),
        line0(v.attributes[j]),
    ) == Ok::<DevicesParserView, ParseErrorView>(put0(st0, list.push(v.attributes[j]))) by {
        lemma_whole_attribute(v.attributes[j]);
    }
    lemma_run_each(step, put0, st0, Seq::empty(), v.attributes, line0);
    assert(put0(st0, Seq::empty()) == st0);
    assert(Seq::<AttributeView>::empty() + v.attributes =~= v.attributes);
    assert(put0(st0, v.attributes) == st1);
    assert(v.attributes.map_values(line0) =~= v.attributes.map_values(|a: AttributeView| attribute_statement(a)));
    lemma_run_concat(step, start, a0, v.attributes.map_values(|a: AttributeView| attribute_statement(a)));
    let a1 = a0 + v.attributes.map_values(|a: AttributeView| attribute_statement(a));
    assert(run(step, start, a1) == Ok::<DevicesParserView, ParseErrorView>(st1));
    assert(a1 =~= device_tail_statements(v));
    assert(d1 == device_upto_tail(v));
}

/// The statements of a device close the device that is open and leave the
/// device open, as it is.
proof fn lemma_device_run(devices: Seq<DeviceView>, open: Option<DeviceView>, v: DeviceView)
    requires
        device_ok(v),
    ensures
        run(
            |s: DevicesParserView, kp: KeywordParamView| spec_devices_step(s, kp),
            DevicesParserView { devices, open },
            device_statements(v),
        ) == Ok::<DevicesParserView, ParseErrorView>(
            DevicesParserView {
                devices: spec_devices_flushed(DevicesParserView { devices, open }),
                open: Some(v),
            },
        ),
{
    let step = |s: DevicesParserView, kp: KeywordParamView| spec_devices_step(s, kp);
    let start = DevicesParserView { devices, open };
    let done = spec_devices_flushed(start);
    lemma_device_head_run(devices, open, v);
    lemma_device_pins_run(done, v);
    lemma_device_values_run(done, v);
    lemma_device_limits_run(done, v);
    lemma_device_tail_run(done, v);
    let a = device_head_statements(v);
    let b = device_pins_statements(v);
    let c = device_values_statements(v);
    let d = device_limits_statements(v);
    let e = device_tail_statements(v);
    lemma_run_concat(step, start, a, b);
    lemma_run_concat(step, start, a + b, c);
    lemma_run_concat(step, start, a + b + c, d);
    lemma_run_concat(step, start, a + b + c + d, e);
    assert(device_upto_tail(v) == v);
}

/// The state of the builder behind the statements of the devices `v`: the
/// last device is open, the others are complete.
pub open spec fn devices_state(v: Seq<DeviceView>) -> DevicesParserView {
    if v.len() == 0 {
        DevicesParserView { devices: Seq::empty(), open: None }
    } else {
        DevicesParserView { devices: v.drop_last(), open: Some(v.last()) }
    }
}

/// Whether each of the devices `v` can be written and read back.
pub open spec fn devices_ok(v: Seq<DeviceView>) -> bool {
    forall|i: int| 0 <= i < v.len() ==> device_ok(#[trigger] v[i])
}

/// The statements of devices, one device behind the other, are read as the
/// devices.
proof fn lemma_devices_run(v: Seq<DeviceView>)
    requires
        devices_ok(v),
    ensures
        run(
            |s: DevicesParserView, kp: KeywordParamView| spec_devices_step(s, kp),
            DevicesParserView { devices: Seq::empty(), open: None },
            concat_all(v.map_values(|d: DeviceView| device_statements(d))),
        ) == Ok::<DevicesParserView, ParseErrorView>(devices_state(v)),
        spec_devices_flushed(devices_state(v)) == v,
    decreases v.len(),
{
    let step = |s: DevicesParserView, kp: KeywordParamView| spec_devices_step(s, kp);
    let init = DevicesParserView { devices: Seq::empty(), open: None };
    let lists = v.map_values(|d: DeviceView| device_statements(d));
    if v.len() == 0 {
        assert(concat_all(lists) =~= Seq::<KeywordParamView>::empty());
        assert(spec_devices_flushed(devices_state(v)) =~= v);
    } else {
        let first = v.drop_last();
        assert(devices_ok(first)) by {
            assert forall|i: int| 0 <= i < first.len() implies device_ok(#[trigger] first[i]) by {
                assert(first[i] == v[i]);
            }
        }
        lemma_devices_run(first);
        assert(lists.drop_last() =~= first.map_values(|d: DeviceView| device_statements(d)));
        assert(lists.last() == device_statements(v.last()));
        assert(device_ok(v[v.len() - 1]));
        let before = devices_state(first);
        lemma_device_run(before.devices, before.open, v.last());
        lemma_run_concat(step, init, concat_all(lists.drop_last()), device_statements(v.last()));
        assert(spec_devices_flushed(before) == first);
        assert(first.push(v.last()) =~= v);
    }
}

/// The `DEVICES` section is read back from its text: the text of devices
/// that can be written is split into the statements of a section named
/// `DEVICES`, and the builder makes the devices of them.
pub proof fn lemma_devices_round_trip(v: Seq<DeviceView>)
    requires
        devices_ok(v),
    ensures
        section_round_trips(devices_text(v), ParsedSectionView::Devices(v)),
{
    reveal(spec_build_section);
    lemma_section_devices();
    let texts = v.map_values(|d: DeviceView| device_text(d));
    let lists = v.map_values(|d: DeviceView| device_statements(d));
    let statements = concat_all(lists);
    lemma_devices_run(v);
    lemma_join_wrapped("$DEVICES"@, texts, "$ENDDEVICES"@);
    let section = SectionView { name: "DEVICES"@, parameters: statements };
    if v.len() == 0 {
        assert(statements =~= Seq::<KeywordParamView>::empty());
        lemma_empty_section_written("DEVICES"@);
        assert(devices_text(v) =~= "$"@ + "DEVICES"@ + crlf() + "$END"@ + "DEVICES"@);
    } else {
        assert forall|i: int| 0 <= i < texts.len() implies reads_as(
            #[trigger] texts[i],
            lists[i],
        ) by {
            assert(device_ok(v[i]));
            lemma_device_reads(v[i]);
        }
        lemma_reads_join_lines(texts, lists);
        lemma_section_written("DEVICES"@, join_lines(texts), statements);
        assert(devices_text(v) =~= section_text("DEVICES"@, join_lines(texts)));
    }
    assert(spec_build_section(section) == Ok::<ParsedSectionView, ParseErrorView>(
        ParsedSectionView::Devices(v),
    ));
}

} // verus!
