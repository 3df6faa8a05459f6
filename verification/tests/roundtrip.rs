use gencad::parser::{KeywordParam, ParsedGencadFile, ParsedSection};
use gencad::sections::board::Board;
use gencad::sections::components::parse_components;
use gencad::sections::header::Header;
use gencad::sections::pads::parse_pads;
use gencad::sections::padstacks::Padstacks;
use gencad::sections::shapes::{parse_shapes, SubShape};
use gencad::sections::signals::Signals;
use gencad::serialization::ToGencadString;
use gencad::types::{
    arc_ref, attrib_ref, circle_ref, dimension, layer, line_ref, mirror, number, pad_type,
    rectangle_ref, text_par, x_y_ref, Dimension, Layer, Mirror, PadType,
};

fn example_file() -> String {
    let mut text = vec![
        "$HEADER",
        "GENCAD 1.4",
        "USER \"Mitron Europe Ltd. Serial Number 00001\"",
        "DRAWING \"Modem C100 motherboard 1234-5678\"",
        "REVISION \"Rev 566g 20th September 1990\"",
        "UNITS USER 1200",
        "ORIGIN 0 0",
        "INTERTRACK 0",
        "ATTRIBUTE alpha m_part \"BIS 9600\"",
        "ATTRIBUTE alpha m_desc \"Issue 2\"",
        "$ENDHEADER",
        "",
        "$BOARD",
        "LINE 1000 2000 1200 2000",
        "ARC 1200 2000 1200 3000 1180 2500",
        "LINE 1200 3000 1000 3000",
        "LINE 1000 3000 1000 2000",
        "CUTOUT TRANSFORMER_HOLE",
        "CIRCLE 1180 2500 20",
        "ATTRIBUTE board mill \"tool 255\"",
        "MASK Fixture_1 TOP",
        "LINE 1005 2005 1195 2005",
        "ARC 1195 2005 1195 2995 1195 2500",
        "LINE 1195 2995 1005 2995",
        "LINE 1005 2995 1005 2005",
        "ARTWORK ORIGIN_MARKER TOP",
        "TRACK 10",
        "FILLED YES",
        "LINE -100 0 100 0",
        "LINE 0 -100 0 100",
        "$ENDBOARD",
        "",
        "$PADS",
        "PAD p0101 FINGER 32",
        "LINE 100 50 -100 50",
        "ARC -100 50 -100 -50 -100 0",
        "LINE -100 -50 100 -50",
        "ARC 100 -50 100 50 100 0",
        "PAD p1053 ROUND 20",
        "CIRCLE 0 0 30",
        "PAD p2034 BULLET 32",
        "ARC 0 -50 0 50 0 0",
        "LINE 0 50 -100 50",
        "LINE -100 50 -100 -50",
        "LINE -100 -50 0 -50",
        "PAD d_hole_50 ROUND 50",
        "CIRCLE 0 0 25",
        "PAD 3 RECTANGULAR 0",
        "RECTANGLE -5.2 -5.2 10.4 10.4",
        "$ENDPADS",
        "",
        "$PADSTACKS",
        "PADSTACK p_stack1 -1",
        "PAD p102_4 TOP 180 0",
        "PAD s102_4 BOTTOM 0 0",
        "PADSTACK p_stack2 -1",
        "PAD r_r3 TOP 180 MIRRORX",
        "PAD r_r0 INNER1 180 MIRRORX",
        "PAD r_r0 INNER2 180 MIRRORX",
        "PAD r_r3 BOTTOM 180 MIRRORY",
        "$ENDPADSTACKS",
        "",
        "$SHAPES",
        "SHAPE CAP_SUPPRESS_TYPE_____24",
        "LINE -1000 200 -1000 -200",
        "LINE -1000 -200 1000 -200",
        "ARC 1000 -200 1000 200 1000 0",
        "LINE 1000 200 -1000 200",
        "PIN 1 p102_4 -100 100 TOP 315 0",
        "PIN 1 s106_6 -100 100 BOTTOM 315 MIRRORX",
        "PIN 2 p102_4 100 -100 TOP 135 0",
        "PIN 2 s106_6 100 -100 BOTTOM 135 MIRRORX",
        "ARTWORK PIN1_MARKER 0 400 0 0",
        "FID PRIMARY OPTICAL1 0 0 TOP 0 0",
        "$ENDSHAPES",
        "",
        "$COMPONENTS",
        "COMPONENT D102",
        "DEVICE 1N4148",
        "PLACE 1200 1800",
        "LAYER TOP",
        "ROTATION 90",
        "SHAPE DO35_a MIRRORX 0",
        "ARTWORK ORIGIN_MARKER 0 0 0 MIRRORX 0",
        "TEXT 50 -50 100 90 0 TOP D102 42 -50 500 200",
        "SHEET 12_B3",
        "COMPONENT U7",
        "DEVICE 74LS04",
        "PLACE 0.003 9.52527",
        "LAYER BOTTOM",
        "ROTATION 12.25",
        "SHAPE DIL14 0 FLIP",
        "ARTWORK PIN1_MARKER 6500 2400 0 MIRRORX FLIP",
        "$ENDCOMPONENTS",
        "",
        "$DEVICES",
        "DEVICE 89-1N4148",
        "PART 1N4148",
        "TYPE DIODE",
        "PINDESC 1 anode",
        "PINDESC 2 cathode",
        "DESC \"Diode 1N4148 bandoleer reverse voltage 100V\"",
        "$ENDDEVICES",
        "",
        "$SIGNALS",
        "SIGNAL data_bus_7",
        "NODE IC3 2",
        "NODE R2 2",
        "NAILLOC R2 2 -1 500 2500 -1 -1 100T BOTTOM",
        "NODE IC4 2",
        "NODE 6Ic2 p34A",
        "NAILLOC 6Ic2 p34A -1 800 3000 -1 -1 75T BOTTOM",
        "SIGNAL ADDRESS_BUS_4",
        "NODE U1 2",
        "NODE PL12 132",
        "NAILLOC PL12 132 -1 200 200 -1 -1 100T BOTTOM",
        "$ENDSIGNALS",
        "",
    ]
    .join("\r\n");
    text.push_str(
        "\r\n$UNKNOWN\r\nKEYWORDA parameter1 parameter2 parameter3\r\nKEYWORDB parameter1 parameter2 parameter3\r\n$ENDUNKNOWN\r\n",
    );
    text
}

fn kp<'a>(keyword: &'a str, parameter: &'a str) -> KeywordParam<'a> {
    KeywordParam { keyword, parameter }
}

#[test]
fn written_file_is_read_back() {
    let file = ParsedGencadFile::new(&example_file()).unwrap();
    assert_eq!(file.sections.len(), 9);
    let text = file.to_gencad_string();
    let again = ParsedGencadFile::new(&text).unwrap();
    assert_eq!(again, file);
    assert_eq!(again.to_gencad_string(), text);
}

#[test]
fn written_sections_are_read_back() {
    let file = ParsedGencadFile::new(&example_file()).unwrap();
    for section in file.sections {
        let text = section.to_gencad_string() + "\r\n";
        let again = ParsedGencadFile::new(&text).unwrap();
        assert_eq!(again.sections, vec![section], "from {}", text);
    }
}

#[test]
fn written_header() {
    let header = Header::new(&[
        kp("GENCAD", "1.4"),
        kp("USER", "\"two words\""),
        kp("DRAWING", "d"),
        kp("REVISION", "\"\""),
        kp("UNITS", "USER 1200"),
        kp("ORIGIN", "0 -1.5"),
        kp("INTERTRACK", "0"),
        kp("ATTRIBUTE", "a b c"),
    ])
    .unwrap();
    assert_eq!(
        header.to_gencad_string(),
        "$HEADER\r\nGENCAD 1.4\r\nUSER \"two words\"\r\nDRAWING d\r\nREVISION \"\"\r\nUNITS USER 1200\r\nORIGIN 0 -1.5\r\nINTERTRACK 0\r\nATTRIBUTE a b c\r\n$ENDHEADER"
    );
}

#[test]
fn written_board_with_empty_lists() {
    let board = Board::new(&[kp("CUTOUT", "c"), kp("ARTWORK", "a TOP"), kp("FILLED", "0")])
        .unwrap();
    let text = board.to_gencad_string();
    assert_eq!(
        text,
        "$BOARD\r\n\r\n\r\nCUTOUT c\r\n\r\n\r\nARTWORK a TOP\r\nFILLED 0\r\n\r\n$ENDBOARD"
    );
    let again = ParsedGencadFile::new(&(text + "\r\n")).unwrap();
    assert_eq!(again.sections, vec![ParsedSection::Board(board)]);
}

#[test]
fn written_records() {
    let pads = parse_pads(&[kp("PAD", "p ROUND -1"), kp("ATTRIBUTE", "a b c"), kp("LINE", "0 0 1 1")])
        .unwrap();
    assert_eq!(
        pads.to_gencad_string(),
        "$PADS\r\nPAD p ROUND -1\r\nLINE 0 0 1 1\r\nATTRIBUTE a b c\r\n$ENDPADS"
    );
    let stacks = Padstacks::new(&[
        kp("ATTRIBUTE", "a b c"),
        kp("PADSTACK", "s -2"),
        kp("PAD", "p INNER3 90 MIRRORY"),
    ])
    .unwrap();
    assert_eq!(
        stacks.to_gencad_string(),
        "$PADSTACKS\r\nPADSTACK s -2\r\nPAD p INNER3 90 MIRRORY\r\nATTRIBUTE a b c\r\n$ENDPADSTACKS"
    );
    let signals = Signals::new(&[
        kp("SIGNAL", "s"),
        kp("NAILLOC", "c p -1 1 2 -1 -1 100T BOTTOM"),
        kp("NODE", "c p"),
    ])
    .unwrap();
    assert_eq!(
        signals.to_gencad_string(),
        "$SIGNALS\r\nSIGNAL s\r\nNODE c p\r\nNAILLOC c p -1 1 2 -1 -1 100T BOTTOM\r\n\r\n$ENDSIGNALS"
    );
    let components = parse_components(&[
        kp("COMPONENT", "C1"),
        kp("PLACE", "1 2"),
        kp("LAYER", "TOP"),
        kp("ROTATION", "90"),
        kp("SHAPE", "s MIRRORX FLIP"),
        kp("DEVICE", "Device LGA1718"),
        kp("FID", "f p 0 0 BOTTOM 0 0 0"),
        kp("ATTRIBUTE", "a b c"),
        kp("SHEET", "1"),
        kp("ATTRIBUTE", "d e f"),
    ])
    .unwrap();
    let text = components.to_gencad_string();
    assert_eq!(
        text,
        "$COMPONENTS\r\nCOMPONENT C1\r\nDEVICE \"Device LGA1718\"\r\nPLACE 1 2\r\nLAYER TOP\r\nROTATION 90\r\nSHAPE s MIRRORX FLIP\r\nSHEET 1\r\nATTRIBUTE d e f\r\nFID f p 0 0 BOTTOM 0 0 0\r\nATTRIBUTE a b c\r\n$ENDCOMPONENTS"
    );
    let again = ParsedGencadFile::new(&(text + "\r\n")).unwrap();
    assert_eq!(again.sections, vec![ParsedSection::Components(components)]);
}

#[test]
fn shape_with_attributes_and_pins_is_read_back() {
    let shapes = parse_shapes(&[
        kp("SHAPE", "S"),
        kp("ATTRIBUTE", "a b c"),
        kp("PIN", "1 p 0 0 TOP 0 0"),
        kp("ATTRIBUTE", "d e f"),
        kp("FID", "2 q 1 1 BOTTOM 90 MIRRORX"),
    ])
    .unwrap();
    assert_eq!(shapes.len(), 1);
    assert_eq!(shapes[0].attributes.len(), 1);
    assert_eq!(shapes[0].subshapes.len(), 2);
    match &shapes[0].subshapes[0] {
        SubShape::Pin(pin) => assert_eq!(pin.attributes.len(), 1),
        other => panic!("unexpected subshape {:?}", other),
    }
    let text = shapes.to_gencad_string();
    assert_eq!(
        text,
        "$SHAPES\r\nSHAPE S\r\nATTRIBUTE a b c\r\nPIN 1 p 0 0 TOP 0 0\r\nATTRIBUTE d e f\r\n\
         FID 2 q 1 1 BOTTOM 90 MIRRORX\r\n\r\n$ENDSHAPES"
    );
    let file = ParsedGencadFile::new(&(text.clone() + "\r\n")).unwrap();
    assert_eq!(file.sections, vec![ParsedSection::Shapes(shapes)]);
    assert_eq!(file.to_gencad_string(), text + "\r\n");
}

#[test]
fn attribute_of_a_shape_stays_with_the_shape() {
    let shape = parse_shapes(&[
        kp("SHAPE", "S"),
        kp("ATTRIBUTE", "a b c"),
        kp("PIN", "1 p 0 0 TOP 0 0"),
    ])
    .unwrap()
    .remove(0);
    assert_eq!(
        shape.to_gencad_string(),
        "SHAPE S\r\nATTRIBUTE a b c\r\nPIN 1 p 0 0 TOP 0 0\r\n"
    );
    let again = parse_shapes(&[
        kp("SHAPE", "S"),
        kp("ATTRIBUTE", "a b c"),
        kp("PIN", "1 p 0 0 TOP 0 0"),
        kp("SHAPE", "T"),
    ])
    .unwrap();
    assert_eq!(again[0], shape);
    assert_eq!(again[0].attributes.len(), 1);
    match &again[0].subshapes[0] {
        SubShape::Pin(pin) => assert!(pin.attributes.is_empty()),
        other => panic!("unexpected subshape {:?}", other),
    }
}

#[test]
fn section_without_lines_is_written_without_an_empty_line() {
    let text = "$UNKNOWN\r\n$ENDUNKNOWN\r\n";
    let file = ParsedGencadFile::new(text).unwrap();
    assert_eq!(file.sections.len(), 1);
    match &file.sections[0] {
        ParsedSection::Unknown(u) => {
            assert_eq!(u.name, "UNKNOWN");
            assert!(u.statements.is_empty());
            assert_eq!(u.to_gencad_string(), "$UNKNOWN\r\n$ENDUNKNOWN");
        }
        other => panic!("unexpected section {:?}", other),
    }
    assert_eq!(file.to_gencad_string(), text);
    assert_eq!(ParsedGencadFile::new(&file.to_gencad_string()), Ok(file));
}

#[test]
fn written_values_are_read_back() {
    for text in ["0", "-1.5", "+.5e-3", "1.", "2.99792458E8"] {
        let (_, v) = number(text).unwrap();
        assert_eq!(number(&v.to_gencad_string()), Ok(("", v)));
    }
    for text in ["1 2", "1200 +3000"] {
        let (_, v) = x_y_ref(text).unwrap();
        assert_eq!(v.to_gencad_string(), text);
        assert_eq!(x_y_ref(&v.to_gencad_string()), Ok(("", v)));
    }
    let (_, v) = line_ref("1 2 3 4").unwrap();
    assert_eq!(line_ref(&v.to_gencad_string()), Ok(("", v)));
    let (_, v) = circle_ref("1 2 3").unwrap();
    assert_eq!(v.to_gencad_string(), "1 2 3");
    assert_eq!(circle_ref(&v.to_gencad_string()), Ok(("", v)));
    let (_, v) = rectangle_ref("1 2 3 4").unwrap();
    assert_eq!(rectangle_ref(&v.to_gencad_string()), Ok(("", v)));
    for text in ["1 2 3 4 5 6", "1 2 3 4 5 6 7 8"] {
        let (_, v) = arc_ref(text).unwrap();
        assert_eq!(arc_ref(&v.to_gencad_string()), Ok(("", v)));
    }
    let (_, v) = attrib_ref("alpha \"m part\" \"\"").unwrap();
    assert_eq!(v.to_gencad_string(), "ATTRIBUTE alpha \"m part\" \"\"");
    assert_eq!(attrib_ref("alpha \"m part\" \"\""), Ok(("", v)));
    let (_, v) = text_par("1 2 MIRRORX LAYERSET2 \"Test String\" -10 -20 20 40").unwrap();
    assert_eq!(v.to_gencad_string(), "1 2 MIRRORX LAYERSET2 \"Test String\" -10 -20 20 40");
    assert_eq!(text_par(&v.to_gencad_string()), Ok(("", v)));
    for v in [
        Layer::Top,
        Layer::Bottom,
        Layer::SoldermaskTop,
        Layer::SoldermaskBottom,
        Layer::SilkscreenTop,
        Layer::SilkscreenBottom,
        Layer::SolderpasteTop,
        Layer::SolderpasteBottom,
        Layer::PowerX(0),
        Layer::GroundX(65535),
        Layer::Inner,
        Layer::InnerX(7),
        Layer::All,
        Layer::LayerX(10),
        Layer::LayersetX(100),
    ] {
        assert_eq!(layer(&v.to_gencad_string()), Ok(("", v)));
    }
    for v in [Mirror::Not, Mirror::MirrorX, Mirror::MirrorY] {
        assert_eq!(mirror(&v.to_gencad_string()), Ok(("", v)));
    }
    for v in [
        PadType::Finger,
        PadType::Round,
        PadType::Annular,
        PadType::Bullet,
        PadType::Rectangular,
        PadType::Hexagon,
        PadType::Octagon,
        PadType::Polygon,
        PadType::Unknown,
    ] {
        assert_eq!(pad_type(&v.to_gencad_string()), Ok(("", v)));
    }
    for v in [
        Dimension::Inch,
        Dimension::Thou,
        Dimension::Mm,
        Dimension::Mm100,
        Dimension::User(1),
        Dimension::UserM(1200),
        Dimension::UserMm(65535),
    ] {
        assert_eq!(dimension(&v.to_gencad_string()), Ok(("", v)));
    }
}

#[test]
fn sections_without_records_are_two_lines() {
    let pads = parse_pads(&[]).unwrap();
    assert_eq!(pads.to_gencad_string(), "$PADS\r\n$ENDPADS");
    let components = parse_components(&[]).unwrap();
    assert_eq!(components.to_gencad_string(), "$COMPONENTS\r\n$ENDCOMPONENTS");
    let shapes = parse_shapes(&[]).unwrap();
    assert_eq!(shapes.to_gencad_string(), "$SHAPES\r\n$ENDSHAPES");
    let text = "$PADS\r\n$ENDPADS\r\n$COMPONENTS\r\n$ENDCOMPONENTS\r\n$SHAPES\r\n$ENDSHAPES\r\n";
    let file = ParsedGencadFile::new(text).unwrap();
    assert_eq!(
        file.sections,
        vec![
            ParsedSection::Pads(pads),
            ParsedSection::Components(components),
            ParsedSection::Shapes(shapes)
        ]
    );
    assert_eq!(file.to_gencad_string(), text);
}
