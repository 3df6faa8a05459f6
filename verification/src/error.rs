//! The error type of the library.

use vstd::prelude::*;
use vstd::string::*;

verus! {

/// The kinds of token the grammar asks for.
#[derive(Debug, Clone, Copy, PartialEq, Eq, Structural)]
pub enum Token {
    /// A number.
    Number,
    /// An unsigned integer of 16 bits.
    PositiveInteger,
    /// A quoted or unquoted string.
    Text,
    /// One or more spaces.
    Spaces,
    /// A layer name.
    Layer,
    /// A unit of dimension.
    Dimension,
    /// A mirror state.
    Mirror,
    /// A pad type.
    PadType,
    /// `0` or `YES`.
    Filled,
    /// `0` or `FLIP`.
    Flip,
    /// An insertion style.
    Insert,
    /// The `$` that opens a section.
    SectionStart,
    /// The `$END` that closes a section.
    SectionEnd,
    /// A keyword of upper case letters.
    Keyword,
    /// The single space between a keyword and its parameter.
    Separator,
    /// The end of a line.
    LineBreak,
}

/// The sections whose contents the library decodes.
#[derive(Debug, Clone, Copy, PartialEq, Eq, Structural)]
pub enum SectionKind {
    Header,
    Board,
    Pads,
    Padstacks,
    Shapes,
    Components,
    Devices,
    Signals,
}

/// The fields a record cannot be completed without.
#[derive(Debug, Clone, Copy, PartialEq, Eq, Structural)]
pub enum Field {
    Gencad,
    User,
    Drawing,
    Revision,
    Units,
    Origin,
    Intertrack,
    Device,
    Place,
    Layer,
    Rotation,
    Shape,
}

/// Why a text could not be decoded.
#[derive(Debug, Clone, PartialEq, Eq)]
pub enum ParseError {
    /// A token of kind `expected` does not stand at the head of `rest`, the
    /// input that was left when the token was due.
    Grammar { expected: Token, rest: String },
    /// No open record of `section`, nor the section itself, admits `keyword`.
    UnexpectedKeyword { section: SectionKind, keyword: String },
    /// `keyword` is admitted inside an artwork of the board only, and none is open.
    ArtworkOnly { keyword: String },
    /// A record of `section` ended before `field` was given.
    MissingField { section: SectionKind, field: Field },
    /// The section `opened` was closed under the name `closed`.
    MismatchedEnd { opened: String, closed: String },
    /// `rest` follows the last section and is no section itself.
    TrailingData { rest: String },
}

/// The mathematical content of a [`ParseError`].
pub ghost enum ParseErrorView {
    Grammar { expected: Token, rest: Seq<char> },
    UnexpectedKeyword { section: SectionKind, keyword: Seq<char> },
    ArtworkOnly { keyword: Seq<char> },
    MissingField { section: SectionKind, field: Field },
    MismatchedEnd { opened: Seq<char>, closed: Seq<char> },
    TrailingData { rest: Seq<char> },
}

impl DeepView for ParseError {
    type V = ParseErrorView;

    open spec fn deep_view(&self) -> ParseErrorView {
        match *self {
            ParseError::Grammar { expected, rest } => ParseErrorView::Grammar {
                expected,
                rest: rest@,
            },
            ParseError::UnexpectedKeyword { section, keyword } => ParseErrorView::UnexpectedKeyword {
                section,
                keyword: keyword@,
            },
            ParseError::ArtworkOnly { keyword } => ParseErrorView::ArtworkOnly { keyword: keyword@ },
            ParseError::MissingField { section, field } => ParseErrorView::MissingField {
                section,
                field,
            },
            ParseError::MismatchedEnd { opened, closed } => ParseErrorView::MismatchedEnd {
                opened: opened@,
                closed: closed@,
            },
            ParseError::TrailingData { rest } => ParseErrorView::TrailingData { rest: rest@ },
        }
    }
}

/// What a parser of a value with view `V` yields on a text: the rest of the
/// text and the value, or the error.
pub type Parsed<V> = Result<(Seq<char>, V), ParseErrorView>;

/// The error of a token of kind `expected` that is missing at the head of `s`.
pub open spec fn spec_expected<V>(expected: Token, s: Seq<char>) -> Parsed<V> {
    Err(ParseErrorView::Grammar { expected, rest: s })
}

/// Whether the executable result `r` is the mathematical result `m`.
pub open spec fn agrees<T: DeepView>(r: Result<(&str, T), ParseError>, m: Parsed<T::V>) -> bool {
    match r {
        Ok((rest, value)) => m == Ok::<(Seq<char>, T::V), ParseErrorView>(
            (rest@, value.deep_view()),
        ),
        Err(e) => m == Err::<(Seq<char>, T::V), ParseErrorView>(e.deep_view()),
    }
}

/// Whether the executable result `r` of decoding a whole text is the
/// mathematical result `m`.
pub open spec fn agrees_whole<T: DeepView>(
    r: Result<T, ParseError>,
    m: Result<T::V, ParseErrorView>,
) -> bool {
    match r {
        Ok(value) => m == Ok::<T::V, ParseErrorView>(value.deep_view()),
        Err(e) => m == Err::<T::V, ParseErrorView>(e.deep_view()),
    }
}

impl Token {
    /// What the token is called in messages.
    pub open spec fn spec_name(self) -> Seq<char> {
        match self {
            Token::Number => "a number"@,
            Token::PositiveInteger => "a positive integer"@,
            Token::Text => "a string"@,
            Token::Spaces => "spaces"@,
            Token::Layer => "a layer"@,
            Token::Dimension => "a dimension"@,
            Token::Mirror => "a mirror state"@,
            Token::PadType => "a pad type"@,
            Token::Filled => "a fill flag"@,
            Token::Flip => "a flip flag"@,
            Token::Insert => "an insertion style"@,
            Token::SectionStart => "the start of a section"@,
            Token::SectionEnd => "the end of a section"@,
            Token::Keyword => "a keyword"@,
            Token::Separator => "a space"@,
            Token::LineBreak => "the end of a line"@,
        }
    }

    /// What the token is called in messages.
    pub fn name(self) -> (r: &'static str)
        ensures
            r@ == self.spec_name(),
    {
        match self {
            Token::Number => "a number",
            Token::PositiveInteger => "a positive integer",
            Token::Text => "a string",
            Token::Spaces => "spaces",
            Token::Layer => "a layer",
            Token::Dimension => "a dimension",
            Token::Mirror => "a mirror state",
            Token::PadType => "a pad type",
            Token::Filled => "a fill flag",
            Token::Flip => "a flip flag",
            Token::Insert => "an insertion style",
            Token::SectionStart => "the start of a section",
            Token::SectionEnd => "the end of a section",
            Token::Keyword => "a keyword",
            Token::Separator => "a space",
            Token::LineBreak => "the end of a line",
        }
    }
}

impl SectionKind {
    /// What the section is called in messages.
    pub open spec fn spec_name(self) -> Seq<char> {
        match self {
            SectionKind::Header => "header"@,
            SectionKind::Board => "board"@,
            SectionKind::Pads => "pads"@,
            SectionKind::Padstacks => "padstacks"@,
            SectionKind::Shapes => "shapes"@,
            SectionKind::Components => "components"@,
            SectionKind::Devices => "devices"@,
            SectionKind::Signals => "signals"@,
        }
    }

    /// What the section is called in messages.
    pub fn name(self) -> (r: &'static str)
        ensures
            r@ == self.spec_name(),
    {
        match self {
            SectionKind::Header => "header",
            SectionKind::Board => "board",
            SectionKind::Pads => "pads",
            SectionKind::Padstacks => "padstacks",
            SectionKind::Shapes => "shapes",
            SectionKind::Components => "components",
            SectionKind::Devices => "devices",
            SectionKind::Signals => "signals",
        }
    }
}

impl Field {
    /// The keyword that gives the field.
    pub open spec fn spec_name(self) -> Seq<char> {
        match self {
            Field::Gencad => "GENCAD"@,
            Field::User => "USER"@,
            Field::Drawing => "DRAWING"@,
            Field::Revision => "REVISION"@,
            Field::Units => "UNITS"@,
            Field::Origin => "ORIGIN"@,
            Field::Intertrack => "INTERTRACK"@,
            Field::Device => "DEVICE"@,
            Field::Place => "PLACE"@,
            Field::Layer => "LAYER"@,
            Field::Rotation => "ROTATION"@,
            Field::Shape => "SHAPE"@,
        }
    }

    /// The keyword that gives the field.
    pub fn name(self) -> (r: &'static str)
        ensures
            r@ == self.spec_name(),
    {
        match self {
            Field::Gencad => "GENCAD",
            Field::User => "USER",
            Field::Drawing => "DRAWING",
            Field::Revision => "REVISION",
            Field::Units => "UNITS",
            Field::Origin => "ORIGIN",
            Field::Intertrack => "INTERTRACK",
            Field::Device => "DEVICE",
            Field::Place => "PLACE",
            Field::Layer => "LAYER",
            Field::Rotation => "ROTATION",
            Field::Shape => "SHAPE",
        }
    }
}

impl ParseErrorView {
    /// The message of the error.
    pub open spec fn message(self) -> Seq<char> {
        match self {
            ParseErrorView::Grammar { expected, rest } => "expected "@ + expected.spec_name()
                + " at: "@ + rest,
            ParseErrorView::UnexpectedKeyword { section, keyword } => "Unexpected keyword in "@
                + section.spec_name() + ": "@ + keyword,
            ParseErrorView::ArtworkOnly { keyword } => keyword
                + " is only supported in ARTWORK section!"@,
            ParseErrorView::MissingField { section, field } => "missing "@ + field.spec_name(),
            ParseErrorView::MismatchedEnd { opened, closed } => "section "@ + opened
                + " closed as "@ + closed,
            ParseErrorView::TrailingData { rest } => "Unparsed data remaining in file: "@ + rest,
        }
    }
}

impl ParseError {
    /// The error of a token of kind `expected` that is missing at the head of `s`.
    pub fn expected(expected: Token, s: &str) -> (r: ParseError)
        ensures
            r.deep_view() == (ParseErrorView::Grammar { expected, rest: s@ }),
    {
        ParseError::Grammar { expected, rest: String::from_str(s) }
    }

    /// The message of the error.
    pub fn to_string(&self) -> (r: String)
        ensures
            r@ == self.deep_view().message(),
    {
        match self {
            ParseError::Grammar { expected, rest } => {
                let mut out = String::from_str("expected ");
                out.append(expected.name());
                out.append(" at: ");
                out.append(rest.as_str());
                out
            },
            ParseError::UnexpectedKeyword { section, keyword } => {
                let mut out = String::from_str("Unexpected keyword in ");
                out.append(section.name());
                out.append(": ");
                out.append(keyword.as_str());
                out
            },
            ParseError::ArtworkOnly { keyword } => {
                let mut out = keyword.clone();
                out.append(" is only supported in ARTWORK section!");
                out
            },
            ParseError::MissingField { section, field } => {
                let mut out = String::from_str("missing ");
                out.append(field.name());
                out
            },
            ParseError::MismatchedEnd { opened, closed } => {
                let mut out = String::from_str("section ");
                out.append(opened.as_str());
                out.append(" closed as ");
                out.append(closed.as_str());
                out
            },
            ParseError::TrailingData { rest } => {
                let mut out = String::from_str("Unparsed data remaining in file: ");
                out.append(rest.as_str());
                out
            },
        }
    }
}

} // verus!
