//! The names under which the grammar uses strings and numbers.

use vstd::prelude::*;
use crate::error::{agrees, ParseError};
use crate::types::number::{number, Number, spec_number};
use crate::types::string::{spec_string, string};

verus! {

/// Parses the name of an artwork: a string.
pub fn artwork_name(s: &str) -> (r: Result<(&str, String), ParseError>)
    ensures
        agrees(r, spec_string(s@)),
{
    string(s)
}

/// Parses the name of a component: a string.
pub fn component_name(s: &str) -> (r: Result<(&str, String), ParseError>)
    ensures
        agrees(r, spec_string(s@)),
{
    string(s)
}

/// Parses a drill size: a number.
pub fn drill_size(s: &str) -> (r: Result<(&str, Number), ParseError>)
    ensures
        agrees(r, spec_number(s@)),
{
    number(s)
}

/// Parses the name of a fiducial: a string.
pub fn fid_name(s: &str) -> (r: Result<(&str, String), ParseError>)
    ensures
        agrees(r, spec_string(s@)),
{
    string(s)
}

/// Parses a file name: a string.
pub fn filename(s: &str) -> (r: Result<(&str, String), ParseError>)
    ensures
        agrees(r, spec_string(s@)),
{
    string(s)
}

/// Parses a height: a number.
pub fn height(s: &str) -> (r: Result<(&str, Number), ParseError>)
    ensures
        agrees(r, spec_number(s@)),
{
    number(s)
}

/// Parses the name of a pad: a string.
pub fn pad_name(s: &str) -> (r: Result<(&str, String), ParseError>)
    ensures
        agrees(r, spec_string(s@)),
{
    string(s)
}

/// Parses the name of a pin: a string.
pub fn pin_name(s: &str) -> (r: Result<(&str, String), ParseError>)
    ensures
        agrees(r, spec_string(s@)),
{
    string(s)
}

/// Parses a probe type: a string.
pub fn probe(s: &str) -> (r: Result<(&str, String), ParseError>)
    ensures
        agrees(r, spec_string(s@)),
{
    string(s)
}

/// Parses a rotation: a number.
pub fn rot(s: &str) -> (r: Result<(&str, Number), ParseError>)
    ensures
        agrees(r, spec_number(s@)),
{
    number(s)
}

/// Parses the name of a shape: a string.
pub fn shape_name(s: &str) -> (r: Result<(&str, String), ParseError>)
    ensures
        agrees(r, spec_string(s@)),
{
    string(s)
}

/// Parses the name of a signal: a string.
pub fn sig_name(s: &str) -> (r: Result<(&str, String), ParseError>)
    ensures
        agrees(r, spec_string(s@)),
{
    string(s)
}

/// Parses a tester assigned number: a string.
pub fn tan(s: &str) -> (r: Result<(&str, String), ParseError>)
    ensures
        agrees(r, spec_string(s@)),
{
    string(s)
}

/// Parses the name of a test pad: a string.
pub fn testpad_name(s: &str) -> (r: Result<(&str, String), ParseError>)
    ensures
        agrees(r, spec_string(s@)),
{
    string(s)
}

/// Parses a tester interface name: a string.
pub fn tin(s: &str) -> (r: Result<(&str, String), ParseError>)
    ensures
        agrees(r, spec_string(s@)),
{
    string(s)
}

/// Parses the name of a test pin: a string.
pub fn tp_name(s: &str) -> (r: Result<(&str, String), ParseError>)
    ensures
        agrees(r, spec_string(s@)),
{
    string(s)
}

/// Parses the name of a track: a string.
pub fn track_name(s: &str) -> (r: Result<(&str, String), ParseError>)
    ensures
        agrees(r, spec_string(s@)),
{
    string(s)
}

/// Parses the width of a track: a number.
pub fn track_width(s: &str) -> (r: Result<(&str, Number), ParseError>)
    ensures
        agrees(r, spec_number(s@)),
{
    number(s)
}

/// Parses the name of a via: a string.
pub fn via_name(s: &str) -> (r: Result<(&str, String), ParseError>)
    ensures
        agrees(r, spec_string(s@)),
{
    string(s)
}

} // verus!
