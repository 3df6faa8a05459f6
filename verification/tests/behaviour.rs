use gencad::error::{Field, ParseError, SectionKind, Token};
use gencad::parser::keyword::Keyword;
use gencad::parser::{sections, KeywordParam, ParsedGencadFile, ParsedSection, Section};
use gencad::sections::board::{Board, Subsection};
use gencad::sections::components::parse_components;
use gencad::sections::devices::{parse_devices, Device, DevicesParser};
use gencad::sections::header::Header;
use gencad::sections::pads::{parse_pads, PadShape};
use gencad::sections::padstacks::Padstacks;
use gencad::sections::shapes::{parse_shapes, Insert, ShapeElement, SubShape};
use gencad::sections::signals::Signals;
use gencad::sections::unknown::{Statement, Unknown};
use gencad::serialization::{join, ToGencadString};
use gencad::types::{
    arc_ref, dimension, layer, number, p_integer, parse_u16, part_name, push_decimal, string,
    ArcRef, CircleRef, Dimension, Layer, Number, PadType, XYRef,
};

fn kp<'a>(keyword: &'a str, parameter: &'a str) -> KeywordParam<'a> {
    KeywordParam { keyword, parameter }
}

fn n(text: &str) -> Number {
    Number::new(text).unwrap()
}

#[test]
fn first_value_of_an_optional_field_is_kept() {
    let devices = parse_devices(&[
        kp("DEVICE", "D1"),
        kp("PART", "first"),
        kp("PART", "second"),
        kp("PINCOUNT", "3"),
        kp("PINCOUNT", "not a number"),
    ])
    .unwrap();
    assert_eq!(devices.len(), 1);
    assert_eq!(devices[0].part, Some("first".to_string()));
    assert_eq!(devices[0].pincount, Some(3));
}

#[test]
fn first_height_and_thickness_are_kept() {
    let shapes = parse_shapes(&[kp("SHAPE", "S"), kp("HEIGHT", "1.5"), kp("HEIGHT", "2")]).unwrap();
    assert_eq!(shapes[0].height, Some(n("1.5")));
    let board = Board::new(&[kp("THICKNESS", "62"), kp("THICKNESS", "31")]).unwrap();
    assert_eq!(board.thickness, Some(n("62")));
}

#[test]
fn attribute_belongs_to_what_is_open() {
    let inside = Board::new(&[kp("MASK", "m TOP"), kp("ATTRIBUTE", "a b c")]).unwrap();
    assert!(inside.attributes.is_empty());
    match &inside.subsections[0] {
        Subsection::Mask(mask) => {
            assert_eq!(mask.attributes.len(), 1);
            assert_eq!(mask.attributes[0].data, "c");
        }
        other => panic!("unexpected subsection {:?}", other),
    }

    let before = Board::new(&[kp("ATTRIBUTE", "a b c"), kp("MASK", "m TOP")]).unwrap();
    assert_eq!(before.attributes.len(), 1);
    match &before.subsections[0] {
        Subsection::Mask(mask) => assert!(mask.attributes.is_empty()),
        other => panic!("unexpected subsection {:?}", other),
    }
}

#[test]
fn two_pins_are_two_records() {
    let shapes = parse_shapes(&[
        kp("SHAPE", "S"),
        kp("PIN", "1 p 0 0 TOP 0 0"),
        kp("PIN", "2 p 1 1 TOP 0 0"),
    ])
    .unwrap();
    assert_eq!(shapes.len(), 1);
    assert_eq!(shapes[0].subshapes.len(), 2);
    match (&shapes[0].subshapes[0], &shapes[0].subshapes[1]) {
        (SubShape::Pin(a), SubShape::Pin(b)) => {
            assert_eq!(a.name, "1");
            assert_eq!(b.name, "2");
        }
        other => panic!("unexpected subshapes {:?}", other),
    }
}

#[test]
fn line_of_the_shape_closes_the_open_pin() {
    let shapes = parse_shapes(&[
        kp("SHAPE", "S"),
        kp("PIN", "1 p 0 0 TOP 0 0"),
        kp("LINE", "0 0 1 1"),
        kp("ATTRIBUTE", "a b c"),
    ])
    .unwrap();
    assert_eq!(shapes[0].subshapes.len(), 1);
    assert_eq!(shapes[0].elements.len(), 1);
    assert!(matches!(shapes[0].elements[0], ShapeElement::Line(_)));
    assert_eq!(shapes[0].attributes.len(), 1);
}

#[test]
fn thickness_closes_the_open_cutout() {
    let board = Board::new(&[kp("CUTOUT", "c"), kp("THICKNESS", "62"), kp("LINE", "0 0 1 1")])
        .unwrap();
    assert_eq!(board.thickness, Some(n("62")));
    assert_eq!(board.subsections.len(), 1);
    assert_eq!(board.outline_shapes.len(), 1);
}

#[test]
fn insert_before_the_first_shape_is_the_default() {
    let shapes = parse_shapes(&[
        kp("INSERT", "SMD"),
        kp("SHAPE", "A"),
        kp("SHAPE", "B"),
        kp("INSERT", "TH"),
    ])
    .unwrap();
    assert_eq!(shapes[0].insert, Some(Insert::Smd));
    assert_eq!(shapes[1].insert, Some(Insert::Smd));

    let shapes = parse_shapes(&[kp("SHAPE", "A"), kp("INSERT", "TH"), kp("SHAPE", "B")]).unwrap();
    assert_eq!(shapes[0].insert, Some(Insert::Th));
    assert_eq!(shapes[1].insert, None);
}

#[test]
fn missing_field_of_a_component_is_named() {
    let r = parse_components(&[
        kp("COMPONENT", "C1"),
        kp("DEVICE", "d"),
        kp("PLACE", "0 0"),
        kp("ROTATION", "0"),
        kp("SHAPE", "s 0 0"),
    ]);
    assert_eq!(
        r,
        Err(ParseError::MissingField { section: SectionKind::Components, field: Field::Layer })
    );
    assert_eq!(r.unwrap_err().to_string(), "missing LAYER");
}

#[test]
fn scenario_pads_section() {
    let file = ParsedGencadFile::new("$PADS\r\nPAD p1053 ROUND 20\r\nCIRCLE 0 0 30\r\n$ENDPADS\r\n")
        .unwrap();
    assert_eq!(file.sections.len(), 1);
    match &file.sections[0] {
        ParsedSection::Pads(pads) => {
            assert_eq!(pads.len(), 1);
            assert_eq!(pads[0].name, "p1053");
            assert_eq!(pads[0].ptype, PadType::Round);
            assert_eq!(pads[0].drill_size, n("20"));
            assert_eq!(
                pads[0].shapes,
                vec![PadShape::Circle(CircleRef {
                    center: XYRef { x: n("0"), y: n("0") },
                    radius: n("30"),
                })]
            );
            assert!(pads[0].attributes.is_empty());
        }
        other => panic!("unexpected section {:?}", other),
    }
}

#[test]
fn scenario_arc_arity() {
    let (rest, arc) = arc_ref("1000 -200 1000 200 1000 0").unwrap();
    assert_eq!(rest, "");
    assert!(matches!(arc, ArcRef::Circular(_)));
    let (rest, arc) = arc_ref("1000 -200 1000 200 1000 0 1000 200").unwrap();
    assert_eq!(rest, "");
    match arc {
        ArcRef::Elliptical(e) => {
            assert_eq!(e.major_radius, n("1000"));
            assert_eq!(e.minor_radius, n("200"));
        }
        other => panic!("unexpected arc {:?}", other),
    }
    // One trailing number is not enough for an ellipse.
    let (rest, arc) = arc_ref("1000 -200 1000 200 1000 0 1000").unwrap();
    assert_eq!(rest, " 1000");
    assert!(matches!(arc, ArcRef::Circular(_)));
}

#[test]
fn unknown_section_passes_through() {
    let text = "$UNKNOWN\r\nKEYWORDA parameter1 parameter2 \"x\"\r\nKEYWORDB  \r\n$ENDUNKNOWN\r\n";
    let file = ParsedGencadFile::new(text).unwrap();
    assert_eq!(
        file.sections,
        vec![ParsedSection::Unknown(Unknown {
            name: "UNKNOWN".to_string(),
            statements: vec![
                Statement {
                    keyword: "KEYWORDA".to_string(),
                    parameter: "parameter1 parameter2 \"x\"".to_string()
                },
                Statement { keyword: "KEYWORDB".to_string(), parameter: " ".to_string() },
            ],
        })]
    );
    assert_eq!(file.to_gencad_string(), text);
    assert_eq!(ParsedGencadFile::new(&file.to_gencad_string()), Ok(file));
}

#[test]
fn numbers_without_digits_are_rejected() {
    for text in ["nan", "inf", "infinity", "+inf", "-nan", "NaN", "e5", ".", "+", ""] {
        assert_eq!(number(text), Err(ParseError::Grammar { expected: Token::Number, rest: text.to_string() }));
    }
    // An exponent without digits spoils the whole number.
    assert!(number("1e").is_err());
    assert!(number("1e+").is_err());
    assert_eq!(number("1.5e3 x").map(|(rest, v)| (rest, v.as_str().to_string())), Ok((" x", "1.5e3".to_string())));
    assert_eq!(number("12abc").map(|(rest, v)| (rest, v.as_str().to_string())), Ok(("abc", "12".to_string())));
    assert_eq!(Number::new("12abc"), None);
    assert_eq!(Number::new("-.5").map(|v| v.to_gencad_string()), Some("-.5".to_string()));
}

#[test]
fn integers_of_16_bits() {
    assert_eq!(parse_u16("0"), Some(0));
    assert_eq!(parse_u16("00042"), Some(42));
    assert_eq!(parse_u16("65535"), Some(65535));
    assert_eq!(parse_u16("65536"), None);
    assert_eq!(parse_u16("99999999999999999999"), None);
    assert_eq!(parse_u16(""), None);
    assert_eq!(parse_u16("12a"), None);
    assert_eq!(p_integer("+12 rest"), Ok((" rest", 12)));
    assert_eq!(
        p_integer("x"),
        Err(ParseError::Grammar { expected: Token::PositiveInteger, rest: "x".to_string() })
    );
    let mut out = String::from("n=");
    push_decimal(&mut out, 0);
    push_decimal(&mut out, 65535);
    push_decimal(&mut out, 1200);
    assert_eq!(out, "n=0655351200");
}

#[test]
fn layers_with_numbers() {
    assert_eq!(layer("POWER12"), Ok(("", Layer::PowerX(12))));
    assert_eq!(layer("LAYERSET3 x"), Ok((" x", Layer::LayersetX(3))));
    assert_eq!(layer("LAYER7"), Ok(("", Layer::LayerX(7))));
    // A number that does not fit falls back to the layer without a number.
    assert_eq!(layer("INNER70000"), Ok(("70000", Layer::Inner)));
    assert!(layer("POWER70000").is_err());
    assert_eq!(Layer::from_pair(("GROUND", "65535")), Ok(Layer::GroundX(65535)));
    assert_eq!(Layer::from_pair(("GROUND", "65536")), Err("Failed to parse u16"));
    assert_eq!(Layer::InnerX(3).to_gencad_string(), "INNER3");
    assert_eq!(Layer::SolderpasteBottom.to_gencad_string(), "SOLDERPASTE_BOTTOM");
}

#[test]
fn dimensions() {
    assert_eq!(dimension("MM100"), Ok(("", Dimension::Mm100)));
    assert_eq!(dimension("MM10"), Ok(("10", Dimension::Mm)));
    assert_eq!(dimension("USERMM  +7"), Ok(("", Dimension::UserMm(7))));
    assert!(dimension("USER").is_err());
    assert!(dimension("USER 70000").is_err());
    assert_eq!(Dimension::from_pair(("USERM", 5)), Dimension::UserM(5));
    assert_eq!(Dimension::User(1200).to_gencad_string(), "USER 1200");
}

#[test]
fn strings_are_quoted_where_needed() {
    for text in ["abc", "a\"b", "", "two words", "\"starts", "back\\slash", "a \\\" b", "x\\y z"] {
        let written = text.to_string().to_gencad_string();
        assert_eq!(string(&written), Ok(("", text.to_string())), "written as {}", written);
        assert_eq!(part_name(&written), Ok(("", text.to_string())));
    }
    assert_eq!("abc".to_string().to_gencad_string(), "abc");
    assert_eq!("two words".to_string().to_gencad_string(), "\"two words\"");
    assert_eq!("".to_string().to_gencad_string(), "\"\"");
    assert_eq!("say \"hi\"".to_string().to_gencad_string(), "\"say \\\"hi\\\"\"");
    // An unquoted part name runs to the end of the printable text.
    assert_eq!(part_name("Device PANEL\tx"), Ok(("\tx", "Device PANEL".to_string())));
    assert_eq!(string("Device PANEL"), Ok((" PANEL", "Device".to_string())));
    assert_eq!(
        string("\"open"),
        Err(ParseError::Grammar { expected: Token::Text, rest: "\"open".to_string() })
    );
}

#[test]
fn keywords() {
    assert_eq!(Keyword::of("PINDESC"), Keyword::Pindesc);
    assert_eq!(Keyword::of("PIN"), Keyword::Pin);
    assert_eq!(Keyword::of("pin"), Keyword::Other);
    assert_eq!(Keyword::of("PINS"), Keyword::Other);
    assert_eq!(Insert::new("SMD"), Ok(Insert::Smd));
    assert_eq!(
        Insert::new("smd"),
        Err(ParseError::Grammar { expected: Token::Insert, rest: "smd".to_string() })
    );
}

#[test]
fn keyword_out_of_place_is_an_error() {
    assert_eq!(
        parse_devices(&[kp("PART", "x")]),
        Err(ParseError::UnexpectedKeyword {
            section: SectionKind::Devices,
            keyword: "PART".to_string()
        })
    );
    assert_eq!(
        parse_pads(&[kp("LINE", "0 0 1 1")]),
        Err(ParseError::UnexpectedKeyword { section: SectionKind::Pads, keyword: "LINE".to_string() })
    );
    assert_eq!(
        parse_pads(&[kp("PAD", "p ROUND 1"), kp("TRACK", "t")])
            .unwrap_err()
            .to_string(),
        "Unexpected keyword in pads: TRACK"
    );
    assert!(Header::new(&[kp("COLOUR", "red")]).is_err());
    assert!(Padstacks::new(&[kp("PAD", "p TOP 0 0")]).is_err());
    assert!(Signals::new(&[kp("NODE", "a b")]).is_err());
    assert!(parse_components(&[kp("COMPONENT", "c"), kp("PIN", "x")]).is_err());
    let r = Board::new(&[kp("CUTOUT", "c"), kp("TRACK", "10")]);
    assert_eq!(r, Err(ParseError::ArtworkOnly { keyword: "TRACK".to_string() }));
    assert_eq!(r.unwrap_err().to_string(), "TRACK is only supported in ARTWORK section!");
    assert_eq!(
        Board::new(&[kp("FILLED", "YES")]),
        Err(ParseError::ArtworkOnly { keyword: "FILLED".to_string() })
    );
}

#[test]
fn framing_errors() {
    assert_eq!(
        ParsedGencadFile::new("$PADS\r\n$ENDSHAPES\r\n"),
        Err(ParseError::MismatchedEnd { opened: "PADS".to_string(), closed: "SHAPES".to_string() })
    );
    assert_eq!(
        ParsedGencadFile::new("$PADS\r\n$ENDPADS\r\ngarbage"),
        Err(ParseError::TrailingData { rest: "garbage".to_string() })
    );
    assert_eq!(
        ParsedGencadFile::new(""),
        Err(ParseError::Grammar { expected: Token::SectionStart, rest: String::new() })
    );
    assert_eq!(
        ParsedGencadFile::new("$PADS\r\nPAD\r\n$ENDPADS\r\n"),
        Err(ParseError::Grammar { expected: Token::SectionEnd, rest: "PAD\r\n$ENDPADS\r\n".to_string() })
    );
    assert_eq!(
        ParsedGencadFile::new("$PADS"),
        Err(ParseError::Grammar { expected: Token::LineBreak, rest: String::new() })
    );
    assert!(ParsedGencadFile::new("$PADS\r$ENDPADS\r").is_err());
    // A section that cannot be decoded ends the whole parse.
    assert!(ParsedGencadFile::new("$X\n$ENDX\n$PADS\nFOO bar\n$ENDPADS\n").is_err());
}

#[test]
fn line_ends_and_blank_lines() {
    let found = sections("$A\n\n\nKEY one\r\r\n\nOTHER \n$ENDA\n\r\n$B\r\n$ENDB\n").unwrap();
    assert_eq!(
        found,
        vec![
            Section { name: "A", parameters: vec![kp("KEY", "one"), kp("OTHER", "")] },
            Section { name: "B", parameters: vec![] },
        ]
    );
}

#[test]
fn builder_is_unchanged_by_a_line_in_error() {
    let mut parser = DevicesParser::new();
    parser.ingest(&kp("DEVICE", "D1")).unwrap();
    let before = parser.clone();
    assert!(parser.ingest(&kp("PINCOUNT", "many")).is_err());
    assert_eq!(parser, before);
    assert!(parser.ingest(&kp("SHAPE", "x")).is_err());
    assert_eq!(parser, before);
    assert_eq!(parser.finalize().unwrap().len(), 1);
}

#[test]
fn joined_lines() {
    assert_eq!(join(&vec![]), "");
    assert_eq!(join(&vec!["a".to_string()]), "a");
    assert_eq!(join(&vec!["a".to_string(), String::new(), "b".to_string()]), "a\r\n\r\nb");
}

#[test]
fn device_text() {
    let devices = parse_devices(&[
        kp("DEVICE", "Device PANEL"),
        kp("PART", "1N4148"),
        kp("PINDESC", "1 anode"),
        kp("PINCOUNT", "2"),
        kp("DESC", "\"a diode\""),
        kp("ATTRIBUTE", "a b \"c d\""),
    ])
    .unwrap();
    let text = devices.to_gencad_string();
    assert_eq!(
        text,
        "$DEVICES\r\nDEVICE \"Device PANEL\"\r\nPART 1N4148\r\nPINDESC 1 anode\r\n\r\nPINCOUNT 2\r\nDESC \"a diode\"\r\nATTRIBUTE a b \"c d\"\r\n$ENDDEVICES"
    );
    let file = ParsedGencadFile::new(&(text + "\r\n")).unwrap();
    assert_eq!(file.sections, vec![ParsedSection::Devices(devices)]);
    let empty: Vec<Device> = Vec::new();
    assert_eq!(empty.to_gencad_string(), "$DEVICES\r\n$ENDDEVICES");
}
