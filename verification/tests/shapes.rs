use gencad::parser::KeywordParam;
use gencad::sections::shapes::{Artwork, Fid, Pin, Shape, ShapeElement, SubShape, parse_shapes};
use gencad::types::{ArcRef, CircularArcRef, Layer, LineRef, Mirror, Number, XYRef};

fn n(v: f32) -> Number {
    Number::new(&format!("{}", v)).unwrap()
}

#[test]
fn shapes_test_example_shape() {
    let params = vec![
        KeywordParam {
            keyword: "SHAPE",
            parameter: "CAP_SUPPRESS_TYPE_____24",
        },
        KeywordParam {
            keyword: "LINE",
            parameter: "-1000 200 -1000 -200",
        },
        KeywordParam {
            keyword: "LINE",
            parameter: "-1000 -200 1000 -200",
        },
        KeywordParam {
            keyword: "ARC",
            parameter: "1000 -200 1000 200 1000 0",
        },
        KeywordParam {
            keyword: "LINE",
            parameter: "1000 200 -1000 200",
        },
        KeywordParam {
            keyword: "PIN",
            parameter: "1 p102_4 -100 100 TOP 315 0",
        },
        KeywordParam {
            keyword: "PIN",
            parameter: "1 s106_6 -100 100 BOTTOM 315 MIRRORX",
        },
        KeywordParam {
            keyword: "PIN",
            parameter: "2 p102_4 100 -100 TOP 135 0",
        },
        KeywordParam {
            keyword: "PIN",
            parameter: "2 s106_6 100 -100 BOTTOM 135 MIRRORX",
        },
        KeywordParam {
            keyword: "ARTWORK",
            parameter: "PIN1_MARKER 0 400 0 0",
        },
        KeywordParam {
            keyword: "FID",
            parameter: "PRIMARY OPTICAL1 0 0 TOP 0 0",
        },
    ];

    let shapes = parse_shapes(&params).unwrap();

    assert_eq!(
        shapes,
        vec![Shape {
            name: "CAP_SUPPRESS_TYPE_____24".to_string(),
            elements: vec![
                ShapeElement::Line(LineRef {
                    start: XYRef {
                        x: n(-1000.0),
                        y: n(200.0)
                    },
                    end: XYRef {
                        x: n(-1000.0),
                        y: n(-200.0)
                    }
                }),
                ShapeElement::Line(LineRef {
                    start: XYRef {
                        x: n(-1000.0),
                        y: n(-200.0)
                    },
                    end: XYRef {
                        x: n(1000.0),
                        y: n(-200.0)
                    }
                }),
                ShapeElement::Arc(ArcRef::Circular(CircularArcRef {
                    start: XYRef {
                        x: n(1000.0),
                        y: n(-200.0)
                    },
                    end: XYRef {
                        x: n(1000.0),
                        y: n(200.0)
                    },
                    center: XYRef { x: n(1000.0), y: n(0.0) },
                })),
                ShapeElement::Line(LineRef {
                    start: XYRef {
                        x: n(1000.0),
                        y: n(200.0)
                    },
                    end: XYRef {
                        x: n(-1000.0),
                        y: n(200.0)
                    }
                }),
            ],
            insert: None,
            height: None,
            subshapes: vec![
                SubShape::Pin(Pin {
                    name: "1".to_string(),
                    pad_name: "p102_4".to_string(),
                    xy: XYRef {
                        x: n(-100.0),
                        y: n(100.0)
                    },
                    layer: Layer::Top,
                    rotation: n(315.0),
                    mirror: Mirror::Not,
                    attributes: vec![]
                }),
                SubShape::Pin(Pin {
                    name: "1".to_string(),
                    pad_name: "s106_6".to_string(),
                    xy: XYRef {
                        x: n(-100.0),
                        y: n(100.0)
                    },
                    layer: Layer::Bottom,
                    rotation: n(315.0),
                    mirror: Mirror::MirrorX,
                    attributes: vec![]
                }),
                SubShape::Pin(Pin {
                    name: "2".to_string(),
                    pad_name: "p102_4".to_string(),
                    xy: XYRef {
                        x: n(100.0),
                        y: n(-100.0)
                    },
                    layer: Layer::Top,
                    rotation: n(135.0),
                    mirror: Mirror::Not,
                    attributes: vec![]
                }),
                SubShape::Pin(Pin {
                    name: "2".to_string(),
                    pad_name: "s106_6".to_string(),
                    xy: XYRef {
                        x: n(100.0),
                        y: n(-100.0)
                    },
                    layer: Layer::Bottom,
                    rotation: n(135.0),
                    mirror: Mirror::MirrorX,
                    attributes: vec![]
                }),
                SubShape::Artwork(Artwork {
                    name: "PIN1_MARKER".to_string(),
                    xy: XYRef { x: n(0.0), y: n(400.0) },
                    rotation: n(0.0),
                    mirror: Mirror::Not,
                    attributes: vec![]
                }),
                SubShape::Fid(Fid {
                    name: "PRIMARY".to_string(),
                    pad_name: "OPTICAL1".to_string(),
                    xy: XYRef { x: n(0.0), y: n(0.0) },
                    layer: Layer::Top,
                    rotation: n(0.0),
                    mirror: Mirror::Not,
                    attributes: vec![]
                })
            ],
            attributes: vec![]
        }]
    );
}
