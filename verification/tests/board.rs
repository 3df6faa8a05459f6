use gencad::parser::KeywordParam;
use gencad::sections::board::{Artwork, ArtworkComponent, Board, BoardShape, Cutout, Mask, Subsection};
use gencad::types::{ArcRef, Attribute, CircleRef, CircularArcRef, Layer, LineRef, Number, XYRef};

fn n(v: f32) -> Number {
    Number::new(&format!("{}", v)).unwrap()
}

#[test]
fn board_test_example_board() {
    let params = vec![
        KeywordParam {
            keyword: "LINE",
            parameter: "1000 2000 1200 2000",
        },
        KeywordParam {
            keyword: "ARC",
            parameter: "1200 2000 1200 3000 1180 2500",
        },
        KeywordParam {
            keyword: "LINE",
            parameter: "1200 3000 1000 3000",
        },
        KeywordParam {
            keyword: "LINE",
            parameter: "1000 3000 1000 2000",
        },
        KeywordParam {
            keyword: "CUTOUT",
            parameter: "TRANSFORMER_HOLE",
        },
        KeywordParam {
            keyword: "CIRCLE",
            parameter: "1180 2500 20",
        },
        KeywordParam {
            keyword: "ATTRIBUTE",
            parameter: "board mill \"tool 255\"",
        },
        KeywordParam {
            keyword: "MASK",
            parameter: "Fixture_1 TOP",
        },
        KeywordParam {
            keyword: "LINE",
            parameter: "1005 2005 1195 2005",
        },
        KeywordParam {
            keyword: "ARC",
            parameter: "1195 2005 1195 2995 1195 2500",
        },
        KeywordParam {
            keyword: "LINE",
            parameter: "1195 2995 1005 2995",
        },
        KeywordParam {
            keyword: "LINE",
            parameter: "1005 2995 1005 2005",
        },
        KeywordParam {
            keyword: "ARTWORK",
            parameter: "ORIGIN_MARKER TOP",
        },
        KeywordParam {
            keyword: "TRACK",
            parameter: "10",
        },
        KeywordParam {
            keyword: "FILLED",
            parameter: "YES",
        },
        KeywordParam {
            keyword: "LINE",
            parameter: "-100 0 100 0",
        },
        KeywordParam {
            keyword: "LINE",
            parameter: "0 -100 0 100",
        },
    ];

    let board = Board::new(&params).unwrap();

    assert_eq!(board.thickness, None);
    assert_eq!(
        board.outline_shapes,
        vec![
            BoardShape::Line(LineRef {
                start: XYRef {
                    x: n(1000.0),
                    y: n(2000.0)
                },
                end: XYRef {
                    x: n(1200.0),
                    y: n(2000.0)
                }
            }),
            BoardShape::Arc(ArcRef::Circular(CircularArcRef {
                start: XYRef {
                    x: n(1200.0),
                    y: n(2000.0)
                },
                end: XYRef {
                    x: n(1200.0),
                    y: n(3000.0)
                },
                center: XYRef {
                    x: n(1180.0),
                    y: n(2500.0)
                }
            })),
            BoardShape::Line(LineRef {
                start: XYRef {
                    x: n(1200.0),
                    y: n(3000.0)
                },
                end: XYRef {
                    x: n(1000.0),
                    y: n(3000.0)
                }
            }),
            BoardShape::Line(LineRef {
                start: XYRef {
                    x: n(1000.0),
                    y: n(3000.0)
                },
                end: XYRef {
                    x: n(1000.0),
                    y: n(2000.0)
                }
            })
        ]
    );
    assert_eq!(board.attributes, Vec::new());
    assert_eq!(
        board.subsections,
        vec![
            Subsection::Cutout(Cutout {
                name: "TRANSFORMER_HOLE".to_string(),
                shapes: vec![BoardShape::Circle(CircleRef {
                    center: XYRef {
                        x: n(1180.0),
                        y: n(2500.0)
                    },
                    radius: n(20.0)
                })],
                attributes: vec![Attribute {
                    category: "board".to_string(),
                    name: "mill".to_string(),
                    data: "tool 255".to_string()
                }]
            }),
            Subsection::Mask(Mask {
                name: "Fixture_1".to_string(),
                layer: Layer::Top,
                shapes: vec![
                    BoardShape::Line(LineRef {
                        start: XYRef {
                            x: n(1005.0),
                            y: n(2005.0)
                        },
                        end: XYRef {
                            x: n(1195.0),
                            y: n(2005.0)
                        }
                    }),
                    BoardShape::Arc(ArcRef::Circular(CircularArcRef {
                        start: XYRef {
                            x: n(1195.0),
                            y: n(2005.0)
                        },
                        end: XYRef {
                            x: n(1195.0),
                            y: n(2995.0)
                        },
                        center: XYRef {
                            x: n(1195.0),
                            y: n(2500.0)
                        }
                    })),
                    BoardShape::Line(LineRef {
                        start: XYRef {
                            x: n(1195.0),
                            y: n(2995.0)
                        },
                        end: XYRef {
                            x: n(1005.0),
                            y: n(2995.0)
                        }
                    }),
                    BoardShape::Line(LineRef {
                        start: XYRef {
                            x: n(1005.0),
                            y: n(2995.0)
                        },
                        end: XYRef {
                            x: n(1005.0),
                            y: n(2005.0)
                        }
                    })
                ],
                attributes: Vec::new(),
            }),
            Subsection::Artwork(Artwork {
                name: "ORIGIN_MARKER".to_string(),
                layer: Layer::Top,
                components: vec![
                    ArtworkComponent::Track("10".to_string()),
                    ArtworkComponent::Filled(true),
                    ArtworkComponent::Line(LineRef {
                        start: XYRef { x: n(-100.0), y: n(0.0) },
                        end: XYRef { x: n(100.0), y: n(0.0) }
                    }),
                    ArtworkComponent::Line(LineRef {
                        start: XYRef { x: n(0.0), y: n(-100.0) },
                        end: XYRef { x: n(0.0), y: n(100.0) }
                    })
                ],
                attributes: Vec::new(),
            })
        ]
    );
}
