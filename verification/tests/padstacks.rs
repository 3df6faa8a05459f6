use gencad::parser::KeywordParam;
use gencad::sections::padstacks::{Pad, Padstack, Padstacks};
use gencad::types::{Layer, Mirror, Number};

fn n(v: f32) -> Number {
    Number::new(&format!("{}", v)).unwrap()
}

#[test]
fn padstacks_test_example_padstacks() {
    let params = vec![
        KeywordParam {
            keyword: "PADSTACK",
            parameter: "p_stack1 -1",
        },
        KeywordParam {
            keyword: "PAD",
            parameter: "p102_4 TOP 180 0",
        },
        KeywordParam {
            keyword: "PAD",
            parameter: "s102_4 BOTTOM 0 0",
        },
        KeywordParam {
            keyword: "PADSTACK",
            parameter: "p_stack2 -1",
        },
        KeywordParam {
            keyword: "PAD",
            parameter: "r_r3 TOP 180 MIRRORX",
        },
        KeywordParam {
            keyword: "PAD",
            parameter: "r_r0 INNER1 180 MIRRORX",
        },
        KeywordParam {
            keyword: "PAD",
            parameter: "r_r0 INNER2 180 MIRRORX",
        },
        KeywordParam {
            keyword: "PAD",
            parameter: "r_r3 BOTTOM 180 MIRRORY",
        },
    ];

    let padstacks = Padstacks::new(&params).unwrap();

    assert_eq!(
        padstacks,
        Padstacks {
            padstacks: vec![
                Padstack {
                    name: "p_stack1".to_string(),
                    drill_size: n(-1.0),
                    pads: vec![
                        Pad {
                            name: "p102_4".to_string(),
                            layer: Layer::Top,
                            rotation: n(180.0),
                            mirror: Mirror::Not
                        },
                        Pad {
                            name: "s102_4".to_string(),
                            layer: Layer::Bottom,
                            rotation: n(0.0),
                            mirror: Mirror::Not
                        }
                    ]
                },
                Padstack {
                    name: "p_stack2".to_string(),
                    drill_size: n(-1.0),
                    pads: vec![
                        Pad {
                            name: "r_r3".to_string(),
                            layer: Layer::Top,
                            rotation: n(180.0),
                            mirror: Mirror::MirrorX
                        },
                        Pad {
                            name: "r_r0".to_string(),
                            layer: Layer::InnerX(1),
                            rotation: n(180.0),
                            mirror: Mirror::MirrorX
                        },
                        Pad {
                            name: "r_r0".to_string(),
                            layer: Layer::InnerX(2),
                            rotation: n(180.0),
                            mirror: Mirror::MirrorX
                        },
                        Pad {
                            name: "r_r3".to_string(),
                            layer: Layer::Bottom,
                            rotation: n(180.0),
                            mirror: Mirror::MirrorY
                        }
                    ]
                }
            ],
            attributes: vec![]
        }
    );
}
