use gencad::serialization::ToGencadString;
use gencad::types::util::spaces;
use gencad::types::{
    arc_ref, attrib_ref, backslash_sequence, circle_ref, dimension, layer, line_ref, mirror,
    number, p_integer, pad_type, quoted_string, quoted_string_inner_fragment, rectangle_ref, string,
    text_par, unquoted_string, x_y_ref, ArcRef, Attribute, CircleRef, CircularArcRef, Dimension,
    EllipticalArcRef, Layer, LineRef, Mirror, Number, PadType, QuotedStringFragment, RectangleRef,
    TextPar, XYRef,
};

fn n(v: f32) -> Number {
    Number::new(&format!("{}", v)).unwrap()
}

#[test]
fn test_circular() {
    assert_eq!(
        arc_ref("1000 -200 1000 200 1000 0"),
        Ok((
            "",
            ArcRef::Circular(CircularArcRef {
                start: XYRef {
                    x: n(1000.0),
                    y: n(-200.0)
                },
                end: XYRef {
                    x: n(1000.0),
                    y: n(200.0)
                },
                center: XYRef { x: n(1000.0), y: n(0.0) }
            })
        ))
    );
}

#[test]
fn test_elliptical() {
    assert_eq!(
        arc_ref("1000 -200 1000 200 1000 0 1000 200"),
        Ok((
            "",
            ArcRef::Elliptical(EllipticalArcRef {
                start: XYRef {
                    x: n(1000.0),
                    y: n(-200.0)
                },
                end: XYRef {
                    x: n(1000.0),
                    y: n(200.0)
                },
                center: XYRef { x: n(1000.0), y: n(0.0) },
                major_radius: n(1000.0),
                minor_radius: n(200.0),
            })
        ))
    );
}

#[test]
fn circle_ref_test_ok() {
    assert_eq!(
        circle_ref("1000 -200 10"),
        Ok((
            "",
            CircleRef {
                center: XYRef {
                    x: n(1000.0),
                    y: n(-200.0)
                },
                radius: n(10.0),
            }
        ))
    );
}

#[test]
fn layer_tests_standard() {
    assert_eq!(layer("TOP"), Ok(("", Layer::Top)));
    assert_eq!(layer("BOTTOM"), Ok(("", Layer::Bottom)));
    assert_eq!(layer("SOLDERMASK_TOP"), Ok(("", Layer::SoldermaskTop)));
    assert_eq!(
        layer("SOLDERMASK_BOTTOM"),
        Ok(("", Layer::SoldermaskBottom))
    );
    assert_eq!(layer("SILKSCREEN_TOP"), Ok(("", Layer::SilkscreenTop)));
    assert_eq!(
        layer("SILKSCREEN_BOTTOM"),
        Ok(("", Layer::SilkscreenBottom))
    );
    assert_eq!(layer("SOLDERPASTE_TOP"), Ok(("", Layer::SolderpasteTop)));
    assert_eq!(
        layer("SOLDERPASTE_BOTTOM"),
        Ok(("", Layer::SolderpasteBottom))
    );
    assert_eq!(layer("INNER"), Ok(("", Layer::Inner)));
    assert_eq!(layer("ALL"), Ok(("", Layer::All)));

    assert_eq!(layer("POWER1"), Ok(("", Layer::PowerX(1))));
    assert_eq!(layer("GROUND1"), Ok(("", Layer::GroundX(1))));
    assert_eq!(layer("INNER1"), Ok(("", Layer::InnerX(1))));
    assert_eq!(layer("LAYER1"), Ok(("", Layer::LayerX(1))));
    assert_eq!(layer("LAYERSET1"), Ok(("", Layer::LayersetX(1))));
}

#[test]
fn line_ref_test_ok() {
    assert_eq!(
        line_ref("1000 -200 200 -1000"),
        Ok((
            "",
            LineRef {
                start: XYRef {
                    x: n(1000.0),
                    y: n(-200.0)
                },
                end: XYRef {
                    x: n(200.0),
                    y: n(-1000.0)
                },
            }
        ))
    );
}

#[test]
fn pad_type_tests_standard() {
    assert_eq!(pad_type("FINGER"), Ok(("", PadType::Finger)));
    assert_eq!(pad_type("ROUND"), Ok(("", PadType::Round)));
    assert_eq!(pad_type("ANNULAR"), Ok(("", PadType::Annular)));
    assert_eq!(pad_type("BULLET"), Ok(("", PadType::Bullet)));
    assert_eq!(pad_type("RECTANGULAR"), Ok(("", PadType::Rectangular)));
    assert_eq!(pad_type("HEXAGON"), Ok(("", PadType::Hexagon)));
    assert_eq!(pad_type("OCTAGON"), Ok(("", PadType::Octagon)));
    assert_eq!(pad_type("POLYGON"), Ok(("", PadType::Polygon)));
    assert_eq!(pad_type("UNKNOWN"), Ok(("", PadType::Unknown)));
}

#[test]
fn rectangle_ref_test_ok() {
    assert_eq!(
        rectangle_ref("1000 -200 20 -10"),
        Ok((
            "",
            RectangleRef {
                origin: XYRef {
                    x: n(1000.0),
                    y: n(-200.0)
                },
                x: n(20.0),
                y: n(-10.0),
            }
        ))
    );
}

#[test]
fn test_backslash_sequence() {
    assert_eq!(backslash_sequence(r#"\;"#), Ok((";", '\\')));
    assert_eq!(backslash_sequence(r#"\\;"#), Ok((r#"\;"#, '\\')));
    assert_eq!(backslash_sequence(r#"\";"#), Ok((";", '"')));
}

#[test]
fn test_quoted_string_inner_fragment() {
    assert_eq!(
        quoted_string_inner_fragment(r#"ABCD EFGH"#),
        Ok(("", QuotedStringFragment::Literal("ABCD EFGH")))
    );
    assert_eq!(
        quoted_string_inner_fragment(r#"ABCD EFGH\"#),
        Ok((r#"\"#, QuotedStringFragment::Literal("ABCD EFGH")))
    );
    assert_eq!(
        quoted_string_inner_fragment(r#"ABCD \EFGH"#),
        Ok((r#"\EFGH"#, QuotedStringFragment::Literal("ABCD ")))
    );
    assert_eq!(
        quoted_string_inner_fragment(r#"\;"#),
        Ok((";", QuotedStringFragment::Char('\\')))
    );
    assert_eq!(
        quoted_string_inner_fragment(r#"\\;"#),
        Ok((r#"\;"#, QuotedStringFragment::Char('\\')))
    );
    assert_eq!(
        quoted_string_inner_fragment(r#"\";"#),
        Ok((";", QuotedStringFragment::Char('"')))
    );
}

#[test]
fn test_quoted_string() {
    assert_eq!(quoted_string(r#""""#), Ok(("", "".to_string())));
    assert_eq!(quoted_string(r#""A""#), Ok(("", "A".to_string())));
    assert_eq!(
        quoted_string(r#""ABCD EFGH""#),
        Ok(("", "ABCD EFGH".to_string()))
    );
    assert_eq!(quoted_string(r#""A\"""#), Ok(("", "A\"".to_string())));
    assert_eq!(
        quoted_string(r#""ABCD EFGH \IJKL\ \"MNOP\" QRST WXYZ""#),
        Ok(("", "ABCD EFGH \\IJKL\\ \"MNOP\" QRST WXYZ".to_string()))
    );
}

#[test]
fn test_unquoted_string() {
    assert_eq!(unquoted_string(""), Ok(("", "")));
    assert_eq!(unquoted_string("A"), Ok(("", "A")));

    // Unquoted strings may contain quotes, so long as they don't start with one
    assert_eq!(unquoted_string(r#"A""#), Ok(("", r#"A""#)));

    // Check all valid characters
    const VALID_CHARS: &str = r##"!"#$%&'()*+,-./0123456789:;<=>?@ABCDEFGHIJKLMNOPQRSTUVWXYZ[\]^_`abcdefghijklmnopqrstuvwxyz{|}~"##;
    assert_eq!(unquoted_string(VALID_CHARS), Ok(("", VALID_CHARS)));

    // Some random valid strings
    assert_eq!(unquoted_string("HYGi_"), Ok(("", "HYGi_")));
    assert_eq!(unquoted_string("h&DB%Q1#u"), Ok(("", "h&DB%Q1#u")));
    assert_eq!(unquoted_string("RTc&n"), Ok(("", "RTc&n")));
    assert_eq!(unquoted_string("=B4=~._"), Ok(("", "=B4=~._")));
    assert_eq!(unquoted_string("u0dL$2|"), Ok(("", "u0dL$2|")));

    // Unquoted strings must not contain spaces
    assert_eq!(unquoted_string("o7a[xtE "), Ok((" ", "o7a[xtE")));
    assert_eq!(unquoted_string(")(WA Gnw"), Ok((" Gnw", ")(WA")));

    // Unquoted strings must not start with quote
    assert!(unquoted_string("\"qoY@M;").is_err());
    assert!(unquoted_string(r#""A""#).is_err());

    // No non-ASCII characters
    assert_eq!(unquoted_string("V3\"'ðŸ˜€"), Ok(("ðŸ˜€", "V3\"'")));
    assert_eq!(unquoted_string("A'ðŸ˜€A4%"), Ok(("ðŸ˜€A4%", "A'")));
}

#[test]
fn attrib_ref_test_ok() {
    assert_eq!(
        attrib_ref("a b c"),
        Ok((
            "",
            Attribute {
                category: "a".to_string(),
                name: "b".to_string(),
                data: "c".to_string()
            }
        ))
    );

    // Examples from the standard
    assert_eq!(
        attrib_ref(r#"alpha m_part "BIS 9600""#),
        Ok((
            "",
            Attribute {
                category: "alpha".to_string(),
                name: "m_part".to_string(),
                data: "BIS 9600".to_string()
            }
        ))
    );
    assert_eq!(
        attrib_ref(r#"alpha m_desc "Issue 2""#),
        Ok((
            "",
            Attribute {
                category: "alpha".to_string(),
                name: "m_desc".to_string(),
                data: "Issue 2".to_string()
            }
        ))
    );
}

#[test]
fn dimension_tests_standard() {
    assert_eq!(dimension("INCH"), Ok(("", Dimension::Inch)));
    assert_eq!(dimension("THOU"), Ok(("", Dimension::Thou)));
    assert_eq!(dimension("MM"), Ok(("", Dimension::Mm)));
    assert_eq!(dimension("MM100"), Ok(("", Dimension::Mm100)));
    assert_eq!(dimension("USER 1"), Ok(("", Dimension::User(1))));
    assert_eq!(dimension("USER +1"), Ok(("", Dimension::User(1))));
    assert_eq!(dimension("USER 65535"), Ok(("", Dimension::User(65535))));
    assert_eq!(dimension("USERM 1"), Ok(("", Dimension::UserM(1))));
    assert_eq!(dimension("USERM +1"), Ok(("", Dimension::UserM(1))));
    assert_eq!(dimension("USERM 65535"), Ok(("", Dimension::UserM(65535))));
    assert_eq!(dimension("USERMM 1"), Ok(("", Dimension::UserMm(1))));
    assert_eq!(dimension("USERMM +1"), Ok(("", Dimension::UserMm(1))));
    assert_eq!(
        dimension("USERMM 65535"),
        Ok(("", Dimension::UserMm(65535)))
    );
}

#[test]
fn mirror_tests_standard() {
    assert_eq!(mirror("0"), Ok(("", Mirror::Not)));
    assert_eq!(mirror("MIRRORX"), Ok(("", Mirror::MirrorX)));
    assert_eq!(mirror("MIRRORY"), Ok(("", Mirror::MirrorY)));
}

#[test]
fn p_integer_test_integers() {
    assert_eq!(p_integer("0"), Ok(("", 0u16)));
    assert_eq!(p_integer("+0"), Ok(("", 0u16)));
    assert_eq!(p_integer("1"), Ok(("", 1u16)));
    assert_eq!(p_integer("+1"), Ok(("", 1u16)));
    assert_eq!(p_integer("65535"), Ok(("", 65535u16)));
    assert_eq!(p_integer("+65535"), Ok(("", 65535u16)));
}

#[test]
fn p_integer_test_errors() {
    assert!(p_integer("-1").is_err());
    assert!(p_integer("65536").is_err());
}

#[test]
fn test_string() {
    // Unquoted strings
    assert_eq!(string(""), Ok(("", "".to_string())));
    assert_eq!(string("A"), Ok(("", "A".to_string())));
    assert_eq!(string(r#"A""#), Ok(("", r#"A""#.to_string())));

    // Quoted strings
    assert_eq!(string(r#""A\"""#), Ok(("", "A\"".to_string())));
    assert_eq!(
        string(r#""ABCD EFGH \IJKL\ \"MNOP\" QRST WXYZ""#),
        Ok(("", "ABCD EFGH \\IJKL\\ \"MNOP\" QRST WXYZ".to_string()))
    );

    // Examples from the standard
    assert_eq!(
        string(r#""Mitron Europe Ltd. Serial Number 00001""#),
        Ok(("", "Mitron Europe Ltd. Serial Number 00001".to_string()))
    );
    assert_eq!(
        string(r#""Modem C100 motherboard 1234-5678""#),
        Ok(("", "Modem C100 motherboard 1234-5678".to_string()))
    );
    assert_eq!(
        string(r#""Rev 566g 20th September 1990""#),
        Ok(("", "Rev 566g 20th September 1990".to_string()))
    );
}

#[test]
fn text_par_test_ok() {
    assert_eq!(
        text_par("1 2 0 SILKSCREEN_TOP \"Test String\" -10 -20 20 40"),
        Ok((
            "",
            TextPar {
                text_size: n(1.0),
                rotation: n(2.0),
                mirror: Mirror::Not,
                layer: Layer::SilkscreenTop,
                text: "Test String".to_string(),
                area: RectangleRef {
                    origin: XYRef { x: n(-10.0), y: n(-20.0) },
                    x: n(20.0),
                    y: n(40.0)
                },
            }
        ))
    );
}

#[test]
fn arc_ref_test_serialization() {
    let circular = "1000 -200 1000 200 1000 0";
    assert_eq!(
        circular.to_string(),
        arc_ref(circular).unwrap().1.to_gencad_string()
    );

    let elliptical = "1000 -200 1000 200 1000 0 1000 200";
    assert_eq!(
        elliptical.to_string(),
        arc_ref(elliptical).unwrap().1.to_gencad_string()
    );
}

#[test]
fn line_ref_test_serialization() {
    let line = "1000 -200 200 -1000";
    assert_eq!(
        line.to_string(),
        line_ref(line).unwrap().1.to_gencad_string()
    );
}

#[test]
fn rectangle_ref_test_serialization() {
    let rectangle = "1000 -200 20 -10";
    assert_eq!(
        rectangle.to_string(),
        rectangle_ref(rectangle).unwrap().1.to_gencad_string()
    );
}

#[test]
fn test_spaces() {
    assert_eq!(spaces("     "), Ok(("", "     ")));
    assert_eq!(spaces("   a  "), Ok(("a  ", "   ")));

    assert!(spaces("").is_err());
    assert!(spaces("a").is_err());
}

fn value(r: Result<(&str, Number), gencad::error::ParseError>) -> Result<(&str, f32), gencad::error::ParseError> {
    r.map(|(rest, number)| (rest, number.as_str().parse().unwrap()))
}

#[test]
fn number_test_integers() {
    assert_eq!(value(number("1")), Ok(("", 1.0)));
    assert_eq!(value(number("+1")), Ok(("", 1.0)));
    assert_eq!(value(number("-1")), Ok(("", -1.0)));
}

#[test]
fn test_decimals() {
    assert_eq!(value(number("0.1")), Ok(("", 0.1)));
    assert_eq!(value(number("+0.1")), Ok(("", 0.1)));
    assert_eq!(value(number("-0.1")), Ok(("", -0.1)));
    assert_eq!(value(number("+.1")), Ok(("", 0.1)));
    assert_eq!(value(number("-.1")), Ok(("", -0.1)));

    assert_eq!(value(number("1.0")), Ok(("", 1.0)));
    assert_eq!(value(number("+1.0")), Ok(("", 1.0)));
    assert_eq!(value(number("-1.0")), Ok(("", -1.0)));
    assert_eq!(value(number("+1.")), Ok(("", 1.0)));
    assert_eq!(value(number("-1.")), Ok(("", -1.0)));
}

#[test]
fn test_scientific() {
    assert_eq!(value(number("2.99792458e8")), Ok(("", 299792458.0)));
    assert_eq!(value(number("2.99792458E8")), Ok(("", 299792458.0)));
    assert_eq!(value(number("+2.99792458e8")), Ok(("", 299792458.0)));
    assert_eq!(value(number("-2.99792458e8")), Ok(("", -299792458.0)));

    // Limits in the standard
    assert_eq!(value(number("3.4e-38")), Ok(("", 3.4e-38)));
    assert_eq!(value(number("3.4e38")), Ok(("", 3.4e38)));
}

#[test]
fn number_test_errors() {
    // Unlike normal floating point numbers, the GenCAD number type does not support NaN/infinity.
    assert!(number("nan").is_err());
    assert!(number("infinity").is_err());
    assert!(number("inf").is_err());
}

fn point(r: Result<(&str, XYRef), gencad::error::ParseError>) -> Result<(&str, (f32, f32)), gencad::error::ParseError> {
    r.map(|(rest, p)| (rest, (p.x.as_str().parse().unwrap(), p.y.as_str().parse().unwrap())))
}

#[test]
fn x_y_ref_tests_standard() {
    // Examples from the standard
    assert_eq!(point(x_y_ref("1200 +3000")), Ok(("", (1200.0, 3000.0))));
    assert_eq!(point(x_y_ref("1.2005 0.0035")), Ok(("", (1.2005, 0.0035))));
    assert_eq!(
        x_y_ref("1.2005 0.0035"),
        Ok((
            "",
            XYRef {
                x: n(1.2005),
                y: n(0.0035),
            }
        ))
    );
}
