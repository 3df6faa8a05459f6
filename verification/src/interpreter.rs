//! The records of a parsed file, to be looked up by their names.
//!
//! Of two sections of one kind in a file, the later counts; of two records
//! of one name in a section, the later counts. A file without a `HEADER`
//! section cannot be interpreted. Sections that hold no named records are
//! passed over.

use vstd::prelude::*;
use crate::lex::str_eq;
use crate::parser::file::{ParsedGencadFile, ParsedSection, ParsedSectionView};
use crate::sections::components::{Component, ComponentView};
use crate::sections::devices::{Device, DeviceView};
use crate::sections::header::{Header, HeaderView};
use crate::sections::pads::{Pad, PadView};
use crate::sections::padstacks::{Padstack, PadstackView};
use crate::sections::shapes::{Shape, ShapeView};

verus! {

/// A record that has a name.
pub trait Named {
    /// The name of the record.
    spec fn spec_name(&self) -> Seq<char>;

    /// The name of the record.
    fn name(&self) -> (r: &str)
        ensures
            r@ == self.spec_name(),
    ;
}

impl Named for Pad {
    open spec fn spec_name(&self) -> Seq<char> {
        self.name@
    }

    fn name(&self) -> (r: &str) {
        self.name.as_str()
    }
}

impl Named for Padstack {
    open spec fn spec_name(&self) -> Seq<char> {
        self.name@
    }

    fn name(&self) -> (r: &str) {
        self.name.as_str()
    }
}

impl Named for Shape {
    open spec fn spec_name(&self) -> Seq<char> {
        self.name@
    }

    fn name(&self) -> (r: &str) {
        self.name.as_str()
    }
}

impl Named for Component {
    open spec fn spec_name(&self) -> Seq<char> {
        self.name@
    }

    fn name(&self) -> (r: &str) {
        self.name.as_str()
    }
}

impl Named for Device {
    open spec fn spec_name(&self) -> Seq<char> {
        self.name@
    }

    fn name(&self) -> (r: &str) {
        self.name.as_str()
    }
}

/// The last of the records `records` with the name `name`.
pub open spec fn spec_lookup<T: Named>(records: Seq<T>, name: Seq<char>) -> Option<T>
    decreases records.len(),
{
    if records.len() == 0 {
        None
    } else if records.last().spec_name() == name {
        Some(records.last())
    } else {
        spec_lookup(records.drop_last(), name)
    }
}

/// What is looked up has the name asked for and is the last record with it;
/// nothing is found only where no record has the name.
pub proof fn lemma_lookup<T: Named>(records: Seq<T>, name: Seq<char>)
    ensures
        match spec_lookup(records, name) {
            Some(record) => exists|i: int|
                0 <= i < records.len() && records[i] == record && record.spec_name() == name
                    && forall|j: int| i < j < records.len() ==> records[j].spec_name() != name,
            None => forall|j: int| 0 <= j < records.len() ==> records[j].spec_name() != name,
        },
    decreases records.len(),
{
    if records.len() > 0 {
        if records.last().spec_name() == name {
            let i = records.len() - 1;
            assert(records[i] == records.last());
        } else {
            lemma_lookup(records.drop_last(), name);
            match spec_lookup(records, name) {
                Some(record) => {
                    let i = choose|i: int|
                        0 <= i < records.drop_last().len() && records.drop_last()[i] == record
                            && record.spec_name() == name && forall|j: int|
                            i < j < records.drop_last().len() ==> records.drop_last()[j].spec_name()
                                != name;
                    assert(records[i] == record);
                    assert forall|j: int| i < j < records.len() implies records[j].spec_name()
                        != name by {
                        if j < records.len() - 1 {
                            assert(records.drop_last()[j] == records[j]);
                        }
                    }
                },
                None => {
                    assert forall|j: int| 0 <= j < records.len() implies records[j].spec_name()
                        != name by {
                        if j < records.len() - 1 {
                            assert(records.drop_last()[j] == records[j]);
                        }
                    }
                },
            }
        }
    }
}

/// The records of one section, to be looked up by name.
#[derive(Debug, Clone, PartialEq, Eq)]
pub struct Table<T> {
    /// The records, in the order of the file.
    pub records: Vec<T>,
}

impl<T: DeepView> DeepView for Table<T> {
    type V = Seq<T::V>;

    open spec fn deep_view(&self) -> Seq<T::V> {
        self.records.deep_view()
    }
}

impl<T: Named> Table<T> {
    /// The table of the records `records`.
    pub fn new(records: Vec<T>) -> (r: Table<T>)
        ensures
            r.records == records,
    {
        Table { records }
    }

    /// The record with the name `name`: the last one, where several have it.
    pub fn get(&self, name: &str) -> (r: Option<&T>)
        ensures
            match r {
                Some(record) => spec_lookup(self.records@, name@) == Some(*record),
                None => spec_lookup(self.records@, name@) is None,
            },
    {
        let mut i = self.records.len();
        assert(self.records@.take(i as int) =~= self.records@);
        while i > 0
            invariant
                0 <= i <= self.records.len(),
                spec_lookup(self.records@, name@) == spec_lookup(
                    self.records@.take(i as int),
                    name@,
                ),
            decreases i,
        {
            proof {
                let head = self.records@.take(i as int);
                assert(head.drop_last() == self.records@.take(i - 1));
                assert(head.last() == self.records@[i - 1]);
            }
            i -= 1;
            if str_eq(self.records[i].name(), name) {
                return Some(&self.records[i]);
            }
        }
        assert(self.records@.take(0).len() == 0);
        None
    }
}

/// The file has no `HEADER` section.
#[derive(Debug, Clone, Copy, PartialEq, Eq, Structural)]
pub struct MissingHeader;

impl MissingHeader {
    /// The error in words.
    pub open spec fn spec_message() -> Seq<char> {
        "Missing header section in GenCAD file"@
    }

    /// The error in words.
    pub fn message(&self) -> (r: &'static str)
        ensures
            r@ == Self::spec_message(),
    {
        "Missing header section in GenCAD file"
    }
}

/// A fully interpreted GenCAD file.
#[derive(Debug, Clone, PartialEq, Eq)]
pub struct InterpretedGencadFile {
    pub header: Header,
    pub pads: Table<Pad>,
    pub padstacks: Table<Padstack>,
    pub shapes: Table<Shape>,
    pub components: Table<Component>,
    pub devices: Table<Device>,
}

/// The mathematical content of an [`InterpretedGencadFile`].
pub ghost struct InterpretedView {
    pub header: HeaderView,
    pub pads: Seq<PadView>,
    pub padstacks: Seq<PadstackView>,
    pub shapes: Seq<ShapeView>,
    pub components: Seq<ComponentView>,
    pub devices: Seq<DeviceView>,
}

impl DeepView for InterpretedGencadFile {
    type V = InterpretedView;

    open spec fn deep_view(&self) -> InterpretedView {
        InterpretedView {
            header: self.header.deep_view(),
            pads: self.pads.deep_view(),
            padstacks: self.padstacks.deep_view(),
            shapes: self.shapes.deep_view(),
            components: self.components.deep_view(),
            devices: self.devices.deep_view(),
        }
    }
}

/// What the interpreter has picked from the sections of a file: of each
/// kind of section that it needs, the one that counts.
pub ghost struct Picked {
    pub header: Option<HeaderView>,
    pub pads: Option<Seq<PadView>>,
    pub padstacks: Option<Seq<PadstackView>>,
    pub shapes: Option<Seq<ShapeView>>,
    pub components: Option<Seq<ComponentView>>,
    pub devices: Option<Seq<DeviceView>>,
}

/// Nothing picked.
pub open spec fn picked_nothing() -> Picked {
    Picked {
        header: None,
        pads: None,
        padstacks: None,
        shapes: None,
        components: None,
        devices: None,
    }
}

/// What is picked where `section` stands before what gave `later`: the
/// section, unless a later one of its kind was picked already.
pub open spec fn pick(section: ParsedSectionView, later: Picked) -> Picked {
    match section {
        ParsedSectionView::Header(h) => if later.header is None {
            Picked { header: Some(h), ..later }
        } else {
            later
        },
        ParsedSectionView::Pads(p) => if later.pads is None {
            Picked { pads: Some(p), ..later }
        } else {
            later
        },
        ParsedSectionView::Padstacks(p) => if later.padstacks is None {
            Picked { padstacks: Some(p.padstacks), ..later }
        } else {
            later
        },
        ParsedSectionView::Shapes(s) => if later.shapes is None {
            Picked { shapes: Some(s), ..later }
        } else {
            later
        },
        ParsedSectionView::Components(c) => if later.components is None {
            Picked { components: Some(c), ..later }
        } else {
            later
        },
        ParsedSectionView::Devices(d) => if later.devices is None {
            Picked { devices: Some(d), ..later }
        } else {
            later
        },
        _ => later,
    }
}

/// What is picked from the sections `sections` of a file and put before what
/// gave `later`: of each kind, the last section counts.
pub open spec fn pick_all(sections: Seq<ParsedSectionView>, later: Picked) -> Picked
    decreases sections.len(),
{
    if sections.len() == 0 {
        later
    } else {
        pick_all(sections.drop_last(), pick(sections.last(), later))
    }
}

/// The records of a section that may be missing: none where it is missing.
pub open spec fn or_none<V>(records: Option<Seq<V>>) -> Seq<V> {
    match records {
        Some(r) => r,
        None => Seq::empty(),
    }
}

/// The interpreted file of the sections `sections`, or the error of a file
/// without header.
pub open spec fn spec_interpret(sections: Seq<ParsedSectionView>) -> Result<
    InterpretedView,
    MissingHeader,
> {
    let picked = pick_all(sections, picked_nothing());
    match picked.header {
        None => Err(MissingHeader),
        Some(header) => Ok(
            InterpretedView {
                header,
                pads: or_none(picked.pads),
                padstacks: or_none(picked.padstacks),
                shapes: or_none(picked.shapes),
                components: or_none(picked.components),
                devices: or_none(picked.devices),
            },
        ),
    }
}

/// The header that is picked is the one picked before, or else that of the
/// last `HEADER` section; none is picked only where there is no such section.
pub proof fn lemma_picked_header(sections: Seq<ParsedSectionView>, later: Picked)
    ensures
        later.header is Some ==> pick_all(sections, later).header == later.header,
        later.header is None ==> match pick_all(sections, later).header {
            Some(h) => exists|i: int|
                0 <= i < sections.len() && sections[i] == ParsedSectionView::Header(h)
                    && forall|j: int|
                    i < j < sections.len() ==> !(sections[j] is Header),
            None => forall|j: int| 0 <= j < sections.len() ==> !(sections[j] is Header),
        },
    decreases sections.len(),
{
    if sections.len() > 0 {
        let front = sections.drop_last();
        let next = pick(sections.last(), later);
        lemma_picked_header(front, next);
        if later.header is None {
            if sections.last() is Header {
                let i = sections.len() - 1;
                assert(sections[i] == sections.last());
            } else {
                assert(next.header is None);
                match pick_all(sections, later).header {
                    Some(h) => {
                        let i = choose|i: int|
                            0 <= i < front.len() && front[i] == ParsedSectionView::Header(h)
                                && forall|j: int| i < j < front.len() ==> !(front[j] is Header);
                        assert(sections[i] == front[i]);
                        assert forall|j: int| i < j < sections.len() implies !(sections[j]
                            is Header) by {
                            if j < front.len() {
                                assert(front[j] == sections[j]);
                            }
                        }
                    },
                    None => {
                        assert forall|j: int| 0 <= j < sections.len() implies !(sections[j]
                            is Header) by {
                            if j < front.len() {
                                assert(front[j] == sections[j]);
                            }
                        }
                    },
                }
            }
        }
    }
}

/// A file is interpreted where it has a `HEADER` section, and only there; the
/// header is then that of the last such section.
pub proof fn lemma_interpret_header(sections: Seq<ParsedSectionView>)
    ensures
        match spec_interpret(sections) {
            Ok(file) => exists|i: int|
                0 <= i < sections.len() && sections[i] == ParsedSectionView::Header(file.header)
                    && forall|j: int|
                    i < j < sections.len() ==> !(sections[j] is Header),
            Err(_) => forall|j: int| 0 <= j < sections.len() ==> !(sections[j] is Header),
        },
{
    lemma_picked_header(sections, picked_nothing());
}

/// The sections that the interpreter has picked so far.
struct Picker {
    header: Option<Header>,
    pads: Option<Vec<Pad>>,
    padstacks: Option<Vec<Padstack>>,
    shapes: Option<Vec<Shape>>,
    components: Option<Vec<Component>>,
    devices: Option<Vec<Device>>,
}

impl Picker {
    /// What has been picked.
    spec fn picked(&self) -> Picked {
        Picked {
            header: self.header.deep_view(),
            pads: self.pads.deep_view(),
            padstacks: self.padstacks.deep_view(),
            shapes: self.shapes.deep_view(),
            components: self.components.deep_view(),
            devices: self.devices.deep_view(),
        }
    }

    /// Picks `section`, unless a later section of its kind is picked already.
    fn pick(&mut self, section: ParsedSection)
        ensures
            final(self).picked() == pick(section.deep_view(), old(self).picked()),
    {
        match section {
            ParsedSection::Header(s) => {
                if self.header.is_none() {
                    self.header = Some(s);
                }
            },
            ParsedSection::Pads(s) => {
                if self.pads.is_none() {
                    self.pads = Some(s);
                }
            },
            ParsedSection::Padstacks(s) => {
                if self.padstacks.is_none() {
                    self.padstacks = Some(s.padstacks);
                }
            },
            ParsedSection::Shapes(s) => {
                if self.shapes.is_none() {
                    self.shapes = Some(s);
                }
            },
            ParsedSection::Components(s) => {
                if self.components.is_none() {
                    self.components = Some(s);
                }
            },
            ParsedSection::Devices(s) => {
                if self.devices.is_none() {
                    self.devices = Some(s);
                }
            },
            _ => {},
        }
    }
}

/// The records of a section that may be missing.
fn records_or_none<T: DeepView>(records: Option<Vec<T>>) -> (r: Vec<T>)
    ensures
        r.deep_view() == or_none(records.deep_view()),
{
    match records {
        Some(r) => r,
        None => {
            let r: Vec<T> = Vec::new();
            assert(r.deep_view() =~= Seq::empty());
            r
        },
    }
}

impl InterpretedGencadFile {
    /// Interprets a parsed file: picks the sections with named records and
    /// makes their records ready to be looked up.
    pub fn new(parsed: ParsedGencadFile) -> (r: Result<InterpretedGencadFile, MissingHeader>)
        ensures
            match r {
                Ok(file) => spec_interpret(parsed.deep_view()) == Ok::<
                    InterpretedView,
                    MissingHeader,
                >(file.deep_view()),
                Err(e) => spec_interpret(parsed.deep_view()) == Err::<
                    InterpretedView,
                    MissingHeader,
                >(e),
            },
    {
        let ghost all = parsed.deep_view();
        let mut sections = parsed.sections;
        let mut picker = Picker {
            header: None,
            pads: None,
            padstacks: None,
            shapes: None,
            components: None,
            devices: None,
        };
        loop
            invariant
                pick_all(all, picked_nothing()) == pick_all(
                    sections.deep_view(),
                    picker.picked(),
                ),
            ensures
                pick_all(all, picked_nothing()) == picker.picked(),
            decreases sections.len(),
        {
            let ghost before = sections.deep_view();
            match sections.pop() {
                Some(section) => {
                    proof {
                        assert(sections.deep_view() =~= before.drop_last());
                        assert(before.last() == section.deep_view());
                    }
                    picker.pick(section);
                },
                None => {
                    break ;
                },
            }
        }
        let header = match picker.header {
            Some(h) => h,
            None => {
                return Err(MissingHeader);
            },
        };
        Ok(
            InterpretedGencadFile {
                header,
                pads: Table::new(records_or_none(picker.pads)),
                padstacks: Table::new(records_or_none(picker.padstacks)),
                shapes: Table::new(records_or_none(picker.shapes)),
                components: Table::new(records_or_none(picker.components)),
                devices: Table::new(records_or_none(picker.devices)),
            },
        )
    }
}

} // verus!
