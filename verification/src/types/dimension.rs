//! The unit of the coordinates of a file.

use vstd::prelude::*;
use vstd::string::*;
use crate::error::{agrees, Parsed, ParseError, ParseErrorView, spec_expected, Token};
use crate::lex::{lemma_one_line_concat, one_line, str_eq};
use crate::serialization::ToGencadString;
use crate::types::p_integer::{
    decimal_digits, lemma_decimal_one_line, lemma_p_integer_round_trip, p_integer, push_decimal,
    spec_p_integer,
};
use crate::types::util::{
    eat, ends_token, lemma_one_space, lemma_tag_concat, lemma_tag_differs, spaces, spec_spaces,
    spec_tag, starts_token,
};

verus! {

/// The dimension of the units used in the GenCAD file.
#[derive(Debug, Clone, Copy, PartialEq, Eq, Structural)]
pub enum Dimension {
    /// Inches.
    Inch,
    /// Thousandths of an inch.
    Thou,
    /// Millimeters.
    Mm,
    /// Hundredths of a millimeter.
    Mm100,
    /// Number of units per inch.
    User(u16),
    /// Number of units per centimeter.
    UserM(u16),
    /// Number of units per millimeter.
    UserMm(u16),
}

impl DeepView for Dimension {
    type V = Dimension;

    open spec fn deep_view(&self) -> Dimension {
        *self
    }
}

/// Whether `k` names a unit that the user defines.
pub open spec fn is_user_unit(k: Seq<char>) -> bool {
    k == "USER"@ || k == "USERM"@ || k == "USERMM"@
}

/// The unit that the name `k` and the count `v` define.
pub open spec fn spec_dimension_from_pair(k: Seq<char>, v: u16) -> Dimension {
    if k == "USER"@ {
        Dimension::User(v)
    } else if k == "USERM"@ {
        Dimension::UserM(v)
    } else {
        Dimension::UserMm(v)
    }
}

/// The count behind the unit name `k` and spaces at the head of `s`.
pub open spec fn spec_user_unit(k: Seq<char>, s: Seq<char>) -> Option<(Seq<char>, u16)> {
    match spec_tag(k, s) {
        None => None,
        Some(s1) => match spec_spaces(s1) {
            Err(_) => None,
            Ok((s2, _)) => match spec_p_integer(s2) {
                Err(_) => None,
                Ok(r) => Some(r),
            },
        },
    }
}

/// The unit at the head of `s`.
#[verifier::opaque]
pub open spec fn spec_dimension(s: Seq<char>) -> Parsed<Dimension> {
    if let Some(rest) = spec_tag("INCH"@, s) {
        Ok((rest, Dimension::Inch))
    } else if let Some(rest) = spec_tag("THOU"@, s) {
        Ok((rest, Dimension::Thou))
    } else if let Some(rest) = spec_tag("MM100"@, s) {
        Ok((rest, Dimension::Mm100))
    } else if let Some(rest) = spec_tag("MM"@, s) {
        Ok((rest, Dimension::Mm))
    } else if let Some((rest, v)) = spec_user_unit("USERMM"@, s) {
        Ok((rest, spec_dimension_from_pair("USERMM"@, v)))
    } else if let Some((rest, v)) = spec_user_unit("USERM"@, s) {
        Ok((rest, spec_dimension_from_pair("USERM"@, v)))
    } else if let Some((rest, v)) = spec_user_unit("USER"@, s) {
        Ok((rest, spec_dimension_from_pair("USER"@, v)))
    } else {
        spec_expected(Token::Dimension, s)
    }
}

/// The text of a unit.
pub open spec fn dimension_text(d: Dimension) -> Seq<char> {
    match d {
        Dimension::Inch => "INCH"@,
        Dimension::Thou => "THOU"@,
        Dimension::Mm => "MM"@,
        Dimension::Mm100 => "MM100"@,
        Dimension::User(v) => "USER "@ + decimal_digits(v as nat),
        Dimension::UserM(v) => "USERM "@ + decimal_digits(v as nat),
        Dimension::UserMm(v) => "USERMM "@ + decimal_digits(v as nat),
    }
}

impl Dimension {
    /// The unit that a name and a count define.
    pub fn from_pair(user: (&str, u16)) -> (r: Dimension)
        requires
            is_user_unit(user.0@),
        ensures
            r == spec_dimension_from_pair(user.0@, user.1),
    {
        let (k, v) = user;
        if str_eq(k, "USER") {
            Dimension::User(v)
        } else if str_eq(k, "USERM") {
            Dimension::UserM(v)
        } else {
            Dimension::UserMm(v)
        }
    }
}

/// Parses the count behind the unit name `k` and spaces at the head of `s`.
fn user_unit<'a>(k: &str, s: &'a str) -> (r: Option<(&'a str, u16)>)
    ensures
        match r {
            Some((rest, v)) => spec_user_unit(k@, s@) == Some((rest@, v)),
            None => spec_user_unit(k@, s@) is None,
        },
{
    let s1 = match eat(k, s) {
        Some(rest) => rest,
        None => {
            return None;
        },
    };
    let s2 = match spaces(s1) {
        Ok((rest, _)) => rest,
        Err(_) => {
            return None;
        },
    };
    match p_integer(s2) {
        Ok((rest, v)) => Some((rest, v)),
        Err(_) => None,
    }
}

/// Parses the unit at the head of `s`.
pub fn dimension(s: &str) -> (r: Result<(&str, Dimension), ParseError>)
    ensures
        agrees(r, spec_dimension(s@)),
{
    reveal(spec_dimension);
    if let Some(rest) = eat("INCH", s) {
        Ok((rest, Dimension::Inch))
    } else if let Some(rest) = eat("THOU", s) {
        Ok((rest, Dimension::Thou))
    } else if let Some(rest) = eat("MM100", s) {
        Ok((rest, Dimension::Mm100))
    } else if let Some(rest) = eat("MM", s) {
        Ok((rest, Dimension::Mm))
    } else if let Some((rest, v)) = user_unit("USERMM", s) {
        Ok((rest, Dimension::from_pair(("USERMM", v))))
    } else if let Some((rest, v)) = user_unit("USERM", s) {
        Ok((rest, Dimension::from_pair(("USERM", v))))
    } else if let Some((rest, v)) = user_unit("USER", s) {
        Ok((rest, Dimension::from_pair(("USER", v))))
    } else {
        Err(ParseError::expected(Token::Dimension, s))
    }
}

impl ToGencadString for Dimension {
    open spec fn gencad(&self) -> Seq<char> {
        dimension_text(*self)
    }

    fn to_gencad_string(&self) -> (r: String) {
        match self {
            Dimension::Inch => String::from_str("INCH"),
            Dimension::Thou => String::from_str("THOU"),
            Dimension::Mm => String::from_str("MM"),
            Dimension::Mm100 => String::from_str("MM100"),
            Dimension::User(v) => {
                let mut out = String::from_str("USER ");
                push_decimal(&mut out, *v);
                out
            },
            Dimension::UserM(v) => {
                let mut out = String::from_str("USERM ");
                push_decimal(&mut out, *v);
                out
            },
            Dimension::UserMm(v) => {
                let mut out = String::from_str("USERMM ");
                push_decimal(&mut out, *v);
                out
            },
        }
    }
}

/// A unit of dimension is read back from its text.
pub proof fn lemma_dimension_round_trip(v: Dimension, t: Seq<char>)
    requires
        ends_token(t),
    ensures
        starts_token(dimension_text(v)),
        spec_dimension(dimension_text(v) + t) == Ok::<(Seq<char>, Dimension), ParseErrorView>(
            (t, v),
        ),
{
    reveal(spec_dimension);
    reveal_strlit("INCH");
    reveal_strlit("THOU");
    reveal_strlit("MM100");
    reveal_strlit("MM");
    reveal_strlit("USERMM");
    reveal_strlit("USERM");
    reveal_strlit("USER");
    reveal_strlit("USERMM ");
    reveal_strlit("USERM ");
    reveal_strlit("USER ");
    reveal_strlit(" ");
    let s = dimension_text(v) + t;
    match v {
        Dimension::Inch => {
            lemma_tag_concat("INCH"@, t);
        },
        Dimension::Thou => {
            assert(s[0] == 'T');
            lemma_tag_differs("INCH"@, s, 0);
            lemma_tag_concat("THOU"@, t);
        },
        Dimension::Mm100 => {
            assert(s[0] == 'M');
            lemma_tag_differs("INCH"@, s, 0);
            assert(s[0] == 'M');
            lemma_tag_differs("THOU"@, s, 0);
            lemma_tag_concat("MM100"@, t);
        },
        Dimension::Mm => {
            assert(s[0] == 'M');
            lemma_tag_differs("INCH"@, s, 0);
            assert(s[0] == 'M');
            lemma_tag_differs("THOU"@, s, 0);
            lemma_tag_differs("MM100"@, s, 2);
            lemma_tag_concat("MM"@, t);
        },
        Dimension::User(n) => {
            let d = decimal_digits(n as nat);
            lemma_p_integer_round_trip(n, t);
            assert((d + t)[0] == d[0]);
            assert(s =~= "USER"@ + (" "@ + (d + t)));
            assert(s[0] == 'U');
            lemma_tag_differs("INCH"@, s, 0);
            assert(s[0] == 'U');
            lemma_tag_differs("THOU"@, s, 0);
            assert(s[0] == 'U');
            lemma_tag_differs("MM100"@, s, 0);
            assert(s[0] == 'U');
            lemma_tag_differs("MM"@, s, 0);
            assert(s[4] == ' ');
            lemma_tag_differs("USERMM"@, s, 4);
            assert(spec_user_unit("USERMM"@, s) is None);
            assert(s[4] == ' ');
            lemma_tag_differs("USERM"@, s, 4);
            assert(spec_user_unit("USERM"@, s) is None);
            lemma_tag_concat("USER"@, " "@ + (d + t));
            lemma_one_space(d + t);
            assert(spec_user_unit("USER"@, s) == Some((t, n)));
        },
        Dimension::UserM(n) => {
            let d = decimal_digits(n as nat);
            lemma_p_integer_round_trip(n, t);
            assert((d + t)[0] == d[0]);
            assert(s =~= "USERM"@ + (" "@ + (d + t)));
            assert(s[0] == 'U');
            lemma_tag_differs("INCH"@, s, 0);
            assert(s[0] == 'U');
            lemma_tag_differs("THOU"@, s, 0);
            assert(s[0] == 'U');
            lemma_tag_differs("MM100"@, s, 0);
            assert(s[0] == 'U');
            lemma_tag_differs("MM"@, s, 0);
            assert(s[5] == ' ');
            lemma_tag_differs("USERMM"@, s, 5);
            assert(spec_user_unit("USERMM"@, s) is None);
            lemma_tag_concat("USERM"@, " "@ + (d + t));
            lemma_one_space(d + t);
            assert(spec_user_unit("USERM"@, s) == Some((t, n)));
            assert("USERM"@.len() != "USER"@.len());
        },
        Dimension::UserMm(n) => {
            let d = decimal_digits(n as nat);
            lemma_p_integer_round_trip(n, t);
            assert((d + t)[0] == d[0]);
            assert(s =~= "USERMM"@ + (" "@ + (d + t)));
            assert(s[0] == 'U');
            lemma_tag_differs("INCH"@, s, 0);
            assert(s[0] == 'U');
            lemma_tag_differs("THOU"@, s, 0);
            assert(s[0] == 'U');
            lemma_tag_differs("MM100"@, s, 0);
            assert(s[0] == 'U');
            lemma_tag_differs("MM"@, s, 0);
            lemma_tag_concat("USERMM"@, " "@ + (d + t));
            lemma_one_space(d + t);
            assert(spec_user_unit("USERMM"@, s) == Some((t, n)));
            assert("USERMM"@.len() != "USER"@.len());
            assert("USERMM"@.len() != "USERM"@.len());
        },
    }
}

/// The text of a unit of dimension can stand on one line.
pub proof fn lemma_dimension_text_one_line(v: Dimension)
    ensures
        one_line(dimension_text(v)),
{
    reveal_strlit("INCH");
    reveal_strlit("THOU");
    reveal_strlit("MM");
    reveal_strlit("MM100");
    reveal_strlit("USER ");
    reveal_strlit("USERM ");
    reveal_strlit("USERMM ");
    match v {
        Dimension::User(n) => {
            lemma_decimal_one_line(n as nat);
            lemma_one_line_concat("USER "@, decimal_digits(n as nat));
        },
        Dimension::UserM(n) => {
            lemma_decimal_one_line(n as nat);
            lemma_one_line_concat("USERM "@, decimal_digits(n as nat));
        },
        Dimension::UserMm(n) => {
            lemma_decimal_one_line(n as nat);
            lemma_one_line_concat("USERMM "@, decimal_digits(n as nat));
        },
        _ => {},
    }
}

} // verus!
