use gencad::parser::KeywordParam;
use gencad::sections::devices::{Device, PinDesc, parse_devices};

#[test]
fn test_example_devices() {
    let params = vec![
        KeywordParam {
            keyword: "DEVICE",
            parameter: "89-1N4148",
        },
        KeywordParam {
            keyword: "PART",
            parameter: "1N4148",
        },
        KeywordParam {
            keyword: "TYPE",
            parameter: "DIODE",
        },
        KeywordParam {
            keyword: "PINDESC",
            parameter: "1 anode",
        },
        KeywordParam {
            keyword: "PINDESC",
            parameter: "2 cathode",
        },
        KeywordParam {
            keyword: "DESC",
            parameter: "\"Diode 1N4148 bandoleer reverse voltage 100V\"",
        },
    ];

    let devices = parse_devices(&params).unwrap();

    assert_eq!(
        devices,
        vec![Device {
            name: "89-1N4148".to_string(),
            part: Some("1N4148".to_string()),
            dtype: Some("DIODE".to_string()),
            style: None,
            package: None,
            pin_descriptions: vec![
                PinDesc {
                    pin_name: "1".to_string(),
                    text: "anode".to_string()
                },
                PinDesc {
                    pin_name: "2".to_string(),
                    text: "cathode".to_string()
                }
            ],
            pin_functions: vec![],
            pincount: None,
            value: None,
            tol: None,
            ntol: None,
            ptol: None,
            volts: None,
            desc: Some("Diode 1N4148 bandoleer reverse voltage 100V".to_string()),
            attributes: vec![]
        }]
    );
}

#[test]
fn test_device_with_improperly_formatted_strings() {
    // Seen in a real GenCAD file.

    let params = vec![
        KeywordParam {
            keyword: "DEVICE",
            parameter: "Device PANEL",
        },
        KeywordParam {
            keyword: "PART",
            parameter: "HEADER 2X10P G/F 2.54 BLK/C//LONG SHOUNG/1102014270",
        },
    ];

    let devices = parse_devices(&params).unwrap();

    assert_eq!(
        devices,
        vec![Device {
            name: "Device PANEL".to_string(),
            part: Some("HEADER 2X10P G/F 2.54 BLK/C//LONG SHOUNG/1102014270".to_string()),
            dtype: None,
            style: None,
            package: None,
            pin_descriptions: vec![],
            pin_functions: vec![],
            pincount: None,
            value: None,
            tol: None,
            ntol: None,
            ptol: None,
            volts: None,
            desc: None,
            attributes: vec![]
        }]
    );
}
