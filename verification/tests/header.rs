use gencad::parser::KeywordParam;
use gencad::sections::header::{Header};
use gencad::types::{Attribute, Dimension, Number, XYRef};

fn n(v: f32) -> Number {
    Number::new(&format!("{}", v)).unwrap()
}

#[test]
fn header_test_valid_header() {
    let params = vec![
        KeywordParam {
            keyword: "GENCAD",
            parameter: "1.4",
        },
        KeywordParam {
            keyword: "USER",
            parameter: "\"Mitron Europe Ltd. Serial Number 00001\"",
        },
        KeywordParam {
            keyword: "DRAWING",
            parameter: "\"Modem C100 motherboard 1234-5678\"",
        },
        KeywordParam {
            keyword: "REVISION",
            parameter: "\"Rev 566g 20th September 1990\"",
        },
        KeywordParam {
            keyword: "UNITS",
            parameter: "USER 1200",
        },
        KeywordParam {
            keyword: "ORIGIN",
            parameter: "0 0",
        },
        KeywordParam {
            keyword: "INTERTRACK",
            parameter: "0",
        },
        KeywordParam {
            keyword: "ATTRIBUTE",
            parameter: "alpha m_part \"BIS 9600\"",
        },
        KeywordParam {
            keyword: "ATTRIBUTE",
            parameter: "alpha m_desc \"Issue 2\"",
        },
    ];

    let header = Header::new(&params).unwrap();

    assert_eq!(header.gencad_version, n(1.4));
    assert_eq!(header.user, "Mitron Europe Ltd. Serial Number 00001");
    assert_eq!(header.drawing, "Modem C100 motherboard 1234-5678");
    assert_eq!(header.revision, "Rev 566g 20th September 1990");
    assert_eq!(header.units, Dimension::User(1200));
    assert_eq!(header.origin, XYRef { x: n(0.0), y: n(0.0) });
    assert_eq!(header.intertrack, n(0.0));
    assert_eq!(
        header.attributes,
        vec![
            Attribute {
                category: "alpha".to_string(),
                name: "m_part".to_string(),
                data: "BIS 9600".to_string()
            },
            Attribute {
                category: "alpha".to_string(),
                name: "m_desc".to_string(),
                data: "Issue 2".to_string()
            }
        ]
    );
}

#[test]
fn header_test_missing_required_keywords() {
    let base_params = vec![
        KeywordParam {
            keyword: "GENCAD",
            parameter: "1.4",
        },
        KeywordParam {
            keyword: "USER",
            parameter: "\"Mitron Europe Ltd. Serial Number 00001\"",
        },
        KeywordParam {
            keyword: "DRAWING",
            parameter: "\"Modem C100 motherboard 1234-5678\"",
        },
        KeywordParam {
            keyword: "REVISION",
            parameter: "\"Rev 566g 20th September 1990\"",
        },
        KeywordParam {
            keyword: "UNITS",
            parameter: "USER 1200",
        },
        KeywordParam {
            keyword: "ORIGIN",
            parameter: "0 0",
        },
        KeywordParam {
            keyword: "INTERTRACK",
            parameter: "0",
        },
    ];

    let missing_keywords = [
        "GENCAD",
        "USER",
        "DRAWING",
        "REVISION",
        "UNITS",
        "ORIGIN",
        "INTERTRACK",
    ];

    for keyword in missing_keywords {
        let mut params = base_params.clone();
        params.retain(|p| p.keyword != keyword);

        let result = Header::new(&params);
        assert!(result.is_err());
        assert_eq!(
            result.unwrap_err().to_string(),
            format!("missing {}", keyword)
        );
    }
}
