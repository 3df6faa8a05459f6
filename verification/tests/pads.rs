use gencad::parser::KeywordParam;
use gencad::sections::pads::{Pad, PadShape, parse_pads};
use gencad::types::{ArcRef, CircleRef, CircularArcRef, LineRef, Number, PadType, RectangleRef, XYRef};

fn n(v: f32) -> Number {
    Number::new(&format!("{}", v)).unwrap()
}

#[test]
fn pads_test_example_pads() {
    let params = vec![
        KeywordParam {
            keyword: "PAD",
            parameter: "p0101 FINGER 32",
        },
        KeywordParam {
            keyword: "LINE",
            parameter: "100 50 -100 50",
        },
        KeywordParam {
            keyword: "ARC",
            parameter: "-100 50 -100 -50 -100 0",
        },
        KeywordParam {
            keyword: "LINE",
            parameter: "-100 -50 100 -50",
        },
        KeywordParam {
            keyword: "ARC",
            parameter: "100 -50 100 50 100 0",
        },
        KeywordParam {
            keyword: "PAD",
            parameter: "p1053 ROUND 20",
        },
        KeywordParam {
            keyword: "CIRCLE",
            parameter: "0 0 30",
        },
        KeywordParam {
            keyword: "PAD",
            parameter: "p2034 BULLET 32",
        },
        KeywordParam {
            keyword: "ARC",
            parameter: "0 -50 0 50 0 0",
        },
        KeywordParam {
            keyword: "LINE",
            parameter: "0 50 -100 50",
        },
        KeywordParam {
            keyword: "LINE",
            parameter: "-100 50 -100 -50",
        },
        KeywordParam {
            keyword: "LINE",
            parameter: "-100 -50 0 -50",
        },
        KeywordParam {
            keyword: "PAD",
            parameter: "d_hole_50 ROUND 50",
        },
        KeywordParam {
            keyword: "CIRCLE",
            parameter: "0 0 25",
        },
        KeywordParam {
            keyword: "PAD",
            parameter: "3 RECTANGULAR 0",
        },
        KeywordParam {
            keyword: "RECTANGLE",
            parameter: "-5.2 -5.2 10.4 10.4",
        },
    ];

    let pads = parse_pads(&params).unwrap();

    assert_eq!(
        pads,
        vec![
            Pad {
                name: "p0101".to_string(),
                ptype: PadType::Finger,
                drill_size: n(32.0),
                shapes: vec![
                    PadShape::Line(LineRef {
                        start: XYRef { x: n(100.0), y: n(50.0) },
                        end: XYRef { x: n(-100.0), y: n(50.0) }
                    }),
                    PadShape::Arc(ArcRef::Circular(CircularArcRef {
                        start: XYRef { x: n(-100.0), y: n(50.0) },
                        end: XYRef {
                            x: n(-100.0),
                            y: n(-50.0)
                        },
                        center: XYRef { x: n(-100.0), y: n(0.0) }
                    })),
                    PadShape::Line(LineRef {
                        start: XYRef {
                            x: n(-100.0),
                            y: n(-50.0)
                        },
                        end: XYRef { x: n(100.0), y: n(-50.0) }
                    }),
                    PadShape::Arc(ArcRef::Circular(CircularArcRef {
                        start: XYRef { x: n(100.0), y: n(-50.0) },
                        end: XYRef { x: n(100.0), y: n(50.0) },
                        center: XYRef { x: n(100.0), y: n(0.0) }
                    }))
                ],
                attributes: vec![]
            },
            Pad {
                name: "p1053".to_string(),
                ptype: PadType::Round,
                drill_size: n(20.0),
                shapes: vec![PadShape::Circle(CircleRef {
                    center: XYRef { x: n(0.0), y: n(0.0) },
                    radius: n(30.0)
                })],
                attributes: vec![]
            },
            Pad {
                name: "p2034".to_string(),
                ptype: PadType::Bullet,
                drill_size: n(32.0),
                shapes: vec![
                    PadShape::Arc(ArcRef::Circular(CircularArcRef {
                        start: XYRef { x: n(0.0), y: n(-50.0) },
                        end: XYRef { x: n(0.0), y: n(50.0) },
                        center: XYRef { x: n(0.0), y: n(0.0) }
                    })),
                    PadShape::Line(LineRef {
                        start: XYRef { x: n(0.0), y: n(50.0) },
                        end: XYRef { x: n(-100.0), y: n(50.0) }
                    }),
                    PadShape::Line(LineRef {
                        start: XYRef { x: n(-100.0), y: n(50.0) },
                        end: XYRef {
                            x: n(-100.0),
                            y: n(-50.0)
                        }
                    }),
                    PadShape::Line(LineRef {
                        start: XYRef {
                            x: n(-100.0),
                            y: n(-50.0)
                        },
                        end: XYRef { x: n(0.0), y: n(-50.0) }
                    })
                ],
                attributes: vec![]
            },
            Pad {
                name: "d_hole_50".to_string(),
                ptype: PadType::Round,
                drill_size: n(50.0),
                shapes: vec![PadShape::Circle(CircleRef {
                    center: XYRef { x: n(0.0), y: n(0.0) },
                    radius: n(25.0)
                })],
                attributes: vec![]
            },
            Pad {
                name: "3".to_string(),
                ptype: PadType::Rectangular,
                drill_size: n(0.0),
                shapes: vec![PadShape::Rectangle(RectangleRef {
                    origin: XYRef { x: n(-5.2), y: n(-5.2) },
                    x: n(10.4),
                    y: n(10.4)
                })],
                attributes: vec![]
            }
        ]
    );
}
