//! An attribute: additional data attached to a record.

use vstd::prelude::*;
use vstd::string::*;
use crate::error::{agrees, Parsed, ParseError, ParseErrorView};
use crate::lex::{lemma_one_line_concat, one_line};
use crate::serialization::{join, join_lines, render_all, ToGencadString};
use crate::types::string::{
    is_writable, lemma_string_one_line, lemma_string_round_trip, spec_string, string, string_text,
};
use crate::types::util::{ends_token, lemma_one_space, spaces, spec_spaces, starts_token};

verus! {

/// Additional data in a section.
#[derive(Debug, Clone, PartialEq, Eq)]
pub struct Attribute {
    /// The category of the attribute. Can be used to group a set of attributes.
    pub category: String,
    /// The name of the attribute.
    pub name: String,
    /// The attribute data.
    pub data: String,
}

/// The mathematical content of an [`Attribute`].
pub ghost struct AttributeView {
    pub category: Seq<char>,
    pub name: Seq<char>,
    pub data: Seq<char>,
}

impl DeepView for Attribute {
    type V = AttributeView;

    open spec fn deep_view(&self) -> AttributeView {
        AttributeView { category: self.category@, name: self.name@, data: self.data@ }
    }
}

/// The string behind spaces at the head of `s`.
pub open spec fn spec_sp_string(s: Seq<char>) -> Parsed<Seq<char>> {
    match spec_spaces(s) {
        Err(e) => Err(e),
        Ok((s1, _)) => spec_string(s1),
    }
}

/// The attribute at the head of `s`: category, name and data.
pub open spec fn spec_attrib_ref(s: Seq<char>) -> Parsed<AttributeView> {
    match spec_string(s) {
        Err(e) => Err(e),
        Ok((s1, category)) => match spec_sp_string(s1) {
            Err(e) => Err(e),
            Ok((s2, name)) => match spec_sp_string(s2) {
                Err(e) => Err(e),
                Ok((s3, data)) => Ok((s3, AttributeView { category, name, data })),
            },
        },
    }
}

/// The parameter text of an attribute.
pub open spec fn attribute_text(v: AttributeView) -> Seq<char> {
    string_text(v.category) + " "@ + string_text(v.name) + " "@ + string_text(v.data)
}

/// The line of an attribute.
pub open spec fn attribute_line(v: AttributeView) -> Seq<char> {
    "ATTRIBUTE "@ + attribute_text(v)
}

/// The lines of the attributes `v`.
pub open spec fn attributes_text(v: Seq<AttributeView>) -> Seq<char> {
    join_lines(v.map_values(|a: AttributeView| attribute_line(a)))
}

impl Attribute {
    /// The attribute with the category, the name and the data `v`.
    pub fn new(v: (String, String, String)) -> (r: Attribute)
        ensures
            r.category == v.0,
            r.name == v.1,
            r.data == v.2,
    {
        let (category, name, data) = v;
        Attribute { category, name, data }
    }
}

/// Parses the string behind spaces at the head of `s`.
pub fn sp_string(s: &str) -> (r: Result<(&str, String), ParseError>)
    ensures
        agrees(r, spec_sp_string(s@)),
{
    let (s1, _) = spaces(s)?;
    string(s1)
}

/// Parses the attribute at the head of `s`.
pub fn attrib_ref(s: &str) -> (r: Result<(&str, Attribute), ParseError>)
    ensures
        agrees(r, spec_attrib_ref(s@)),
{
    let (s1, category) = string(s)?;
    let (s2, name) = sp_string(s1)?;
    let (s3, data) = sp_string(s2)?;
    Ok((s3, Attribute::new((category, name, data))))
}

impl ToGencadString for Attribute {
    open spec fn gencad(&self) -> Seq<char> {
        attribute_line(self.deep_view())
    }

    fn to_gencad_string(&self) -> (r: String) {
        let mut out = String::from_str("ATTRIBUTE ");
        let category = self.category.to_gencad_string();
        out.append(category.as_str());
        out.append(" ");
        let name = self.name.to_gencad_string();
        out.append(name.as_str());
        out.append(" ");
        let data = self.data.to_gencad_string();
        out.append(data.as_str());
        assert(out@ =~= "ATTRIBUTE "@ + attribute_text(self.deep_view()));
        out
    }
}

impl ToGencadString for Vec<Attribute> {
    open spec fn gencad(&self) -> Seq<char> {
        attributes_text(self.deep_view())
    }

    fn to_gencad_string(&self) -> (r: String) {
        let lines = render_all(self);
        assert(lines.deep_view() =~= self.deep_view().map_values(
            |a: AttributeView| attribute_line(a),
        ));
        join(&lines)
    }
}

/// Whether the three strings of `v` can be written and read back.
pub open spec fn attribute_ok(v: AttributeView) -> bool {
    is_writable(v.category) && is_writable(v.name) && is_writable(v.data)
}

/// A string behind one space is read back, and the space makes a token end.
pub proof fn lemma_sp_string_round_trip(s: Seq<char>, t: Seq<char>)
    requires
        is_writable(s),
        ends_token(t),
    ensures
        ends_token(" "@ + (string_text(s) + t)),
        spec_sp_string(" "@ + (string_text(s) + t)) == Ok::<(Seq<char>, Seq<char>), ParseErrorView>(
            (t, s),
        ),
{
    reveal_strlit(" ");
    lemma_string_round_trip(s, t);
    assert((string_text(s) + t)[0] == string_text(s)[0]);
    lemma_one_space(string_text(s) + t);
    assert((" "@ + (string_text(s) + t))[0] == ' ');
}

/// An attribute is read back from its text.
pub proof fn lemma_attribute_round_trip(v: AttributeView, t: Seq<char>)
    requires
        attribute_ok(v),
        ends_token(t),
    ensures
        starts_token(attribute_text(v)),
        spec_attrib_ref(attribute_text(v) + t) == Ok::<(Seq<char>, AttributeView), ParseErrorView>(
            (t, v),
        ),
{
    let tail2 = " "@ + (string_text(v.data) + t);
    let tail1 = " "@ + (string_text(v.name) + tail2);
    lemma_sp_string_round_trip(v.data, t);
    lemma_sp_string_round_trip(v.name, tail2);
    lemma_string_round_trip(v.category, tail1);
    assert(attribute_text(v) + t =~= string_text(v.category) + tail1);
    assert(attribute_text(v)[0] == string_text(v.category)[0]);
}

/// The line of an attribute can stand on one line.
pub proof fn lemma_attribute_one_line(v: AttributeView)
    requires
        attribute_ok(v),
    ensures
        one_line(attribute_text(v)),
{
    reveal_strlit(" ");
    lemma_string_one_line(v.category);
    lemma_string_one_line(v.name);
    lemma_string_one_line(v.data);
    lemma_one_line_concat(string_text(v.category), " "@);
    lemma_one_line_concat(string_text(v.category) + " "@, string_text(v.name));
    lemma_one_line_concat(string_text(v.category) + " "@ + string_text(v.name), " "@);
    lemma_one_line_concat(string_text(v.category) + " "@ + string_text(v.name) + " "@, string_text(v.data));
}

} // verus!
