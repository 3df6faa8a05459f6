//! The keywords that the section builders know.

use vstd::prelude::*;
use crate::lex::str_eq;

verus! {

/// A keyword of the format, or `Other` for a word that is none.
#[derive(Debug, Clone, Copy, PartialEq, Eq, Structural)]
pub enum Keyword {
    Arc,
    Artwork,
    Attribute,
    Circle,
    Component,
    Cutout,
    Desc,
    Device,
    Drawing,
    Fid,
    Fiducial,
    Filled,
    Gencad,
    Height,
    Insert,
    Intertrack,
    Layer,
    Line,
    Mask,
    Nailloc,
    Node,
    Ntol,
    Origin,
    Package,
    Pad,
    Padstack,
    Part,
    Pin,
    Pincount,
    Pindesc,
    Pinfunct,
    Place,
    Ptol,
    Rectangle,
    Revision,
    Rotation,
    Shape,
    Sheet,
    Signal,
    Style,
    Text,
    Thickness,
    Tol,
    Track,
    Type,
    Units,
    User,
    Value,
    Volts,
    Other,
}

impl Keyword {
    /// The keyword that `k` spells.
    #[verifier::opaque]
    pub open spec fn spec_of(k: Seq<char>) -> Keyword {
        if k == "ARC"@ {
            Keyword::Arc
        } else if k == "ARTWORK"@ {
            Keyword::Artwork
        } else if k == "ATTRIBUTE"@ {
            Keyword::Attribute
        } else if k == "CIRCLE"@ {
            Keyword::Circle
        } else if k == "COMPONENT"@ {
            Keyword::Component
        } else if k == "CUTOUT"@ {
            Keyword::Cutout
        } else if k == "DESC"@ {
            Keyword::Desc
        } else if k == "DEVICE"@ {
            Keyword::Device
        } else if k == "DRAWING"@ {
            Keyword::Drawing
        } else if k == "FID"@ {
            Keyword::Fid
        } else if k == "FIDUCIAL"@ {
            Keyword::Fiducial
        } else if k == "FILLED"@ {
            Keyword::Filled
        } else if k == "GENCAD"@ {
            Keyword::Gencad
        } else if k == "HEIGHT"@ {
            Keyword::Height
        } else if k == "INSERT"@ {
            Keyword::Insert
        } else if k == "INTERTRACK"@ {
            Keyword::Intertrack
        } else if k == "LAYER"@ {
            Keyword::Layer
        } else if k == "LINE"@ {
            Keyword::Line
        } else if k == "MASK"@ {
            Keyword::Mask
        } else if k == "NAILLOC"@ {
            Keyword::Nailloc
        } else if k == "NODE"@ {
            Keyword::Node
        } else if k == "NTOL"@ {
            Keyword::Ntol
        } else if k == "ORIGIN"@ {
            Keyword::Origin
        } else if k == "PACKAGE"@ {
            Keyword::Package
        } else if k == "PAD"@ {
            Keyword::Pad
        } else if k == "PADSTACK"@ {
            Keyword::Padstack
        } else if k == "PART"@ {
            Keyword::Part
        } else if k == "PIN"@ {
            Keyword::Pin
        } else if k == "PINCOUNT"@ {
            Keyword::Pincount
        } else if k == "PINDESC"@ {
            Keyword::Pindesc
        } else if k == "PINFUNCT"@ {
            Keyword::Pinfunct
        } else if k == "PLACE"@ {
            Keyword::Place
        } else if k == "PTOL"@ {
            Keyword::Ptol
        } else if k == "RECTANGLE"@ {
            Keyword::Rectangle
        } else if k == "REVISION"@ {
            Keyword::Revision
        } else if k == "ROTATION"@ {
            Keyword::Rotation
        } else if k == "SHAPE"@ {
            Keyword::Shape
        } else if k == "SHEET"@ {
            Keyword::Sheet
        } else if k == "SIGNAL"@ {
            Keyword::Signal
        } else if k == "STYLE"@ {
            Keyword::Style
        } else if k == "TEXT"@ {
            Keyword::Text
        } else if k == "THICKNESS"@ {
            Keyword::Thickness
        } else if k == "TOL"@ {
            Keyword::Tol
        } else if k == "TRACK"@ {
            Keyword::Track
        } else if k == "TYPE"@ {
            Keyword::Type
        } else if k == "UNITS"@ {
            Keyword::Units
        } else if k == "USER"@ {
            Keyword::User
        } else if k == "VALUE"@ {
            Keyword::Value
        } else if k == "VOLTS"@ {
            Keyword::Volts
        } else {
            Keyword::Other
        }
    }

    /// The text of a keyword; `None` for `Other`.
    pub open spec fn text(self) -> Option<Seq<char>> {
        match self {
            Keyword::Arc => Some("ARC"@),
            Keyword::Artwork => Some("ARTWORK"@),
            Keyword::Attribute => Some("ATTRIBUTE"@),
            Keyword::Circle => Some("CIRCLE"@),
            Keyword::Component => Some("COMPONENT"@),
            Keyword::Cutout => Some("CUTOUT"@),
            Keyword::Desc => Some("DESC"@),
            Keyword::Device => Some("DEVICE"@),
            Keyword::Drawing => Some("DRAWING"@),
            Keyword::Fid => Some("FID"@),
            Keyword::Fiducial => Some("FIDUCIAL"@),
            Keyword::Filled => Some("FILLED"@),
            Keyword::Gencad => Some("GENCAD"@),
            Keyword::Height => Some("HEIGHT"@),
            Keyword::Insert => Some("INSERT"@),
            Keyword::Intertrack => Some("INTERTRACK"@),
            Keyword::Layer => Some("LAYER"@),
            Keyword::Line => Some("LINE"@),
            Keyword::Mask => Some("MASK"@),
            Keyword::Nailloc => Some("NAILLOC"@),
            Keyword::Node => Some("NODE"@),
            Keyword::Ntol => Some("NTOL"@),
            Keyword::Origin => Some("ORIGIN"@),
            Keyword::Package => Some("PACKAGE"@),
            Keyword::Pad => Some("PAD"@),
            Keyword::Padstack => Some("PADSTACK"@),
            Keyword::Part => Some("PART"@),
            Keyword::Pin => Some("PIN"@),
            Keyword::Pincount => Some("PINCOUNT"@),
            Keyword::Pindesc => Some("PINDESC"@),
            Keyword::Pinfunct => Some("PINFUNCT"@),
            Keyword::Place => Some("PLACE"@),
            Keyword::Ptol => Some("PTOL"@),
            Keyword::Rectangle => Some("RECTANGLE"@),
            Keyword::Revision => Some("REVISION"@),
            Keyword::Rotation => Some("ROTATION"@),
            Keyword::Shape => Some("SHAPE"@),
            Keyword::Sheet => Some("SHEET"@),
            Keyword::Signal => Some("SIGNAL"@),
            Keyword::Style => Some("STYLE"@),
            Keyword::Text => Some("TEXT"@),
            Keyword::Thickness => Some("THICKNESS"@),
            Keyword::Tol => Some("TOL"@),
            Keyword::Track => Some("TRACK"@),
            Keyword::Type => Some("TYPE"@),
            Keyword::Units => Some("UNITS"@),
            Keyword::User => Some("USER"@),
            Keyword::Value => Some("VALUE"@),
            Keyword::Volts => Some("VOLTS"@),
            Keyword::Other => None,
        }
    }

    /// The keyword that `k` spells.
    pub fn of(k: &str) -> (r: Keyword)
        ensures
            r == Keyword::spec_of(k@),
    {
        reveal(Keyword::spec_of);
        if str_eq(k, "ARC") {
            Keyword::Arc
        } else if str_eq(k, "ARTWORK") {
            Keyword::Artwork
        } else if str_eq(k, "ATTRIBUTE") {
            Keyword::Attribute
        } else if str_eq(k, "CIRCLE") {
            Keyword::Circle
        } else if str_eq(k, "COMPONENT") {
            Keyword::Component
        } else if str_eq(k, "CUTOUT") {
            Keyword::Cutout
        } else if str_eq(k, "DESC") {
            Keyword::Desc
        } else if str_eq(k, "DEVICE") {
            Keyword::Device
        } else if str_eq(k, "DRAWING") {
            Keyword::Drawing
        } else if str_eq(k, "FID") {
            Keyword::Fid
        } else if str_eq(k, "FIDUCIAL") {
            Keyword::Fiducial
        } else if str_eq(k, "FILLED") {
            Keyword::Filled
        } else if str_eq(k, "GENCAD") {
            Keyword::Gencad
        } else if str_eq(k, "HEIGHT") {
            Keyword::Height
        } else if str_eq(k, "INSERT") {
            Keyword::Insert
        } else if str_eq(k, "INTERTRACK") {
            Keyword::Intertrack
        } else if str_eq(k, "LAYER") {
            Keyword::Layer
        } else if str_eq(k, "LINE") {
            Keyword::Line
        } else if str_eq(k, "MASK") {
            Keyword::Mask
        } else if str_eq(k, "NAILLOC") {
            Keyword::Nailloc
        } else if str_eq(k, "NODE") {
            Keyword::Node
        } else if str_eq(k, "NTOL") {
            Keyword::Ntol
        } else if str_eq(k, "ORIGIN") {
            Keyword::Origin
        } else if str_eq(k, "PACKAGE") {
            Keyword::Package
        } else if str_eq(k, "PAD") {
            Keyword::Pad
        } else if str_eq(k, "PADSTACK") {
            Keyword::Padstack
        } else if str_eq(k, "PART") {
            Keyword::Part
        } else if str_eq(k, "PIN") {
            Keyword::Pin
        } else if str_eq(k, "PINCOUNT") {
            Keyword::Pincount
        } else if str_eq(k, "PINDESC") {
            Keyword::Pindesc
        } else if str_eq(k, "PINFUNCT") {
            Keyword::Pinfunct
        } else if str_eq(k, "PLACE") {
            Keyword::Place
        } else if str_eq(k, "PTOL") {
            Keyword::Ptol
        } else if str_eq(k, "RECTANGLE") {
            Keyword::Rectangle
        } else if str_eq(k, "REVISION") {
            Keyword::Revision
        } else if str_eq(k, "ROTATION") {
            Keyword::Rotation
        } else if str_eq(k, "SHAPE") {
            Keyword::Shape
        } else if str_eq(k, "SHEET") {
            Keyword::Sheet
        } else if str_eq(k, "SIGNAL") {
            Keyword::Signal
        } else if str_eq(k, "STYLE") {
            Keyword::Style
        } else if str_eq(k, "TEXT") {
            Keyword::Text
        } else if str_eq(k, "THICKNESS") {
            Keyword::Thickness
        } else if str_eq(k, "TOL") {
            Keyword::Tol
        } else if str_eq(k, "TRACK") {
            Keyword::Track
        } else if str_eq(k, "TYPE") {
            Keyword::Type
        } else if str_eq(k, "UNITS") {
            Keyword::Units
        } else if str_eq(k, "USER") {
            Keyword::User
        } else if str_eq(k, "VALUE") {
            Keyword::Value
        } else if str_eq(k, "VOLTS") {
            Keyword::Volts
        } else {
            Keyword::Other
        }
    }
}

/// Whether `k` is the text of the keyword `key`, written as a keyword is:
/// in upper case letters, at least one.
pub open spec fn spells(k: Seq<char>, key: Keyword) -> bool {
    &&& key.text() == Some(k)
    &&& Keyword::spec_of(k) == key
    &&& k.len() > 0
    &&& forall|i: int| 0 <= i < k.len() ==> 'A' <= #[trigger] k[i] <= 'Z'
}

/// What tells one keyword from another: the length of the word, its first
/// two letters, and its fourth where it has one.
pub open spec fn mark(k: Seq<char>) -> (nat, char, char, char) {
    (
        k.len(),
        if k.len() > 0 {
            k[0]
        } else {
            ' '
        },
        if k.len() > 1 {
            k[1]
        } else {
            ' '
        },
        if k.len() > 3 {
            k[3]
        } else {
            ' '
        },
    )
}

/// The text of each keyword is read as the keyword it is: no two keywords
/// have the same mark, so none is taken for another.
pub proof fn lemma_keyword(key: Keyword)
    requires
        key != Keyword::Other,
    ensures
        spells(key.text()->0, key),
{
    reveal(Keyword::spec_of);
    reveal_strlit("ARC");
    assert(mark("ARC"@) == (3nat, 'A', 'R', ' '));
    reveal_strlit("ARTWORK");
    assert(mark("ARTWORK"@) == (7nat, 'A', 'R', 'W'));
    reveal_strlit("ATTRIBUTE");
    assert(mark("ATTRIBUTE"@) == (9nat, 'A', 'T', 'R'));
    reveal_strlit("CIRCLE");
    assert(mark("CIRCLE"@) == (6nat, 'C', 'I', 'C'));
    reveal_strlit("COMPONENT");
    assert(mark("COMPONENT"@) == (9nat, 'C', 'O', 'P'));
    reveal_strlit("CUTOUT");
    assert(mark("CUTOUT"@) == (6nat, 'C', 'U', 'O'));
    reveal_strlit("DESC");
    assert(mark("DESC"@) == (4nat, 'D', 'E', 'C'));
    reveal_strlit("DEVICE");
    assert(mark("DEVICE"@) == (6nat, 'D', 'E', 'I'));
    reveal_strlit("DRAWING");
    assert(mark("DRAWING"@) == (7nat, 'D', 'R', 'W'));
    reveal_strlit("FID");
    assert(mark("FID"@) == (3nat, 'F', 'I', ' '));
    reveal_strlit("FIDUCIAL");
    assert(mark("FIDUCIAL"@) == (8nat, 'F', 'I', 'U'));
    reveal_strlit("FILLED");
    assert(mark("FILLED"@) == (6nat, 'F', 'I', 'L'));
    reveal_strlit("GENCAD");
    assert(mark("GENCAD"@) == (6nat, 'G', 'E', 'C'));
    reveal_strlit("HEIGHT");
    assert(mark("HEIGHT"@) == (6nat, 'H', 'E', 'G'));
    reveal_strlit("INSERT");
    assert(mark("INSERT"@) == (6nat, 'I', 'N', 'E'));
    reveal_strlit("INTERTRACK");
    assert(mark("INTERTRACK"@) == (10nat, 'I', 'N', 'E'));
    reveal_strlit("LAYER");
    assert(mark("LAYER"@) == (5nat, 'L', 'A', 'E'));
    reveal_strlit("LINE");
    assert(mark("LINE"@) == (4nat, 'L', 'I', 'E'));
    reveal_strlit("MASK");
    assert(mark("MASK"@) == (4nat, 'M', 'A', 'K'));
    reveal_strlit("NAILLOC");
    assert(mark("NAILLOC"@) == (7nat, 'N', 'A', 'L'));
    reveal_strlit("NODE");
    assert(mark("NODE"@) == (4nat, 'N', 'O', 'E'));
    reveal_strlit("NTOL");
    assert(mark("NTOL"@) == (4nat, 'N', 'T', 'L'));
    reveal_strlit("ORIGIN");
    assert(mark("ORIGIN"@) == (6nat, 'O', 'R', 'G'));
    reveal_strlit("PACKAGE");
    assert(mark("PACKAGE"@) == (7nat, 'P', 'A', 'K'));
    reveal_strlit("PAD");
    assert(mark("PAD"@) == (3nat, 'P', 'A', ' '));
    reveal_strlit("PADSTACK");
    assert(mark("PADSTACK"@) == (8nat, 'P', 'A', 'S'));
    reveal_strlit("PART");
    assert(mark("PART"@) == (4nat, 'P', 'A', 'T'));
    reveal_strlit("PIN");
    assert(mark("PIN"@) == (3nat, 'P', 'I', ' '));
    reveal_strlit("PINCOUNT");
    assert(mark("PINCOUNT"@) == (8nat, 'P', 'I', 'C'));
    reveal_strlit("PINDESC");
    assert(mark("PINDESC"@) == (7nat, 'P', 'I', 'D'));
    reveal_strlit("PINFUNCT");
    assert(mark("PINFUNCT"@) == (8nat, 'P', 'I', 'F'));
    reveal_strlit("PLACE");
    assert(mark("PLACE"@) == (5nat, 'P', 'L', 'C'));
    reveal_strlit("PTOL");
    assert(mark("PTOL"@) == (4nat, 'P', 'T', 'L'));
    reveal_strlit("RECTANGLE");
    assert(mark("RECTANGLE"@) == (9nat, 'R', 'E', 'T'));
    reveal_strlit("REVISION");
    assert(mark("REVISION"@) == (8nat, 'R', 'E', 'I'));
    reveal_strlit("ROTATION");
    assert(mark("ROTATION"@) == (8nat, 'R', 'O', 'A'));
    reveal_strlit("SHAPE");
    assert(mark("SHAPE"@) == (5nat, 'S', 'H', 'P'));
    reveal_strlit("SHEET");
    assert(mark("SHEET"@) == (5nat, 'S', 'H', 'E'));
    reveal_strlit("SIGNAL");
    assert(mark("SIGNAL"@) == (6nat, 'S', 'I', 'N'));
    reveal_strlit("STYLE");
    assert(mark("STYLE"@) == (5nat, 'S', 'T', 'L'));
    reveal_strlit("TEXT");
    assert(mark("TEXT"@) == (4nat, 'T', 'E', 'T'));
    reveal_strlit("THICKNESS");
    assert(mark("THICKNESS"@) == (9nat, 'T', 'H', 'C'));
    reveal_strlit("TOL");
    assert(mark("TOL"@) == (3nat, 'T', 'O', ' '));
    reveal_strlit("TRACK");
    assert(mark("TRACK"@) == (5nat, 'T', 'R', 'C'));
    reveal_strlit("TYPE");
    assert(mark("TYPE"@) == (4nat, 'T', 'Y', 'E'));
    reveal_strlit("UNITS");
    assert(mark("UNITS"@) == (5nat, 'U', 'N', 'T'));
    reveal_strlit("USER");
    assert(mark("USER"@) == (4nat, 'U', 'S', 'R'));
    reveal_strlit("VALUE");
    assert(mark("VALUE"@) == (5nat, 'V', 'A', 'U'));
    reveal_strlit("VOLTS");
    assert(mark("VOLTS"@) == (5nat, 'V', 'O', 'T'));
}

} // verus!
