use gencad::interpreter::{InterpretedGencadFile, MissingHeader, Table};
use gencad::parser::ParsedGencadFile;
use gencad::sections::pads::parse_pads;
use gencad::parser::KeywordParam;

const HEADER: &str = "$HEADER\r\nGENCAD 1.4\r\nUSER \"u\"\r\nDRAWING \"d\"\r\nREVISION \"r\"\r\nUNITS USER 1200\r\nORIGIN 0 0\r\nINTERTRACK 0\r\n$ENDHEADER\r\n";

fn interpreted(text: &str) -> Result<InterpretedGencadFile, MissingHeader> {
    InterpretedGencadFile::new(ParsedGencadFile::new(text).unwrap())
}

#[test]
fn file_without_header_is_not_interpreted() {
    let r = interpreted("$PADS\r\nPAD a ROUND -1\r\n$ENDPADS\r\n");
    assert_eq!(r, Err(MissingHeader));
    assert_eq!(MissingHeader.message(), "Missing header section in GenCAD file");
}

#[test]
fn header_alone_gives_empty_tables() {
    let file = interpreted(HEADER).unwrap();
    assert_eq!(file.header.user, "u");
    assert!(file.pads.records.is_empty());
    assert!(file.padstacks.records.is_empty());
    assert!(file.shapes.records.is_empty());
    assert!(file.components.records.is_empty());
    assert!(file.devices.records.is_empty());
    assert!(file.pads.get("a").is_none());
}

#[test]
fn records_are_found_by_name() {
    let text = format!(
        "{}{}{}{}{}",
        HEADER,
        "$PADS\r\nPAD a ROUND -1\r\nCIRCLE 0 0 5\r\nPAD b RECTANGULAR 3\r\n$ENDPADS\r\n",
        "$PADSTACKS\r\nPADSTACK ps 4\r\nPAD a TOP 0 0\r\n$ENDPADSTACKS\r\n",
        "$SHAPES\r\nSHAPE s\r\nPIN 1 a 0 0 TOP 0 0\r\n$ENDSHAPES\r\n",
        "$DEVICES\r\nDEVICE dev\r\nPART p\r\n$ENDDEVICES\r\n",
    );
    let file = interpreted(&text).unwrap();
    assert_eq!(file.pads.records.len(), 2);
    assert_eq!(file.pads.get("a").unwrap().shapes.len(), 1);
    assert_eq!(file.pads.get("b").unwrap().shapes.len(), 0);
    assert!(file.pads.get("c").is_none());
    assert_eq!(file.padstacks.get("ps").unwrap().pads.len(), 1);
    assert_eq!(file.shapes.get("s").unwrap().subshapes.len(), 1);
    assert_eq!(file.devices.get("dev").unwrap().part, Some("p".to_string()));
    assert!(file.components.get("dev").is_none());
}

#[test]
fn later_section_of_a_kind_counts() {
    let text = format!(
        "{}{}{}{}",
        HEADER,
        "$PADS\r\nPAD a ROUND -1\r\n$ENDPADS\r\n",
        "$PADS\r\nPAD b ROUND -1\r\n$ENDPADS\r\n",
        "$HEADER\r\nGENCAD 1.4\r\nUSER \"second\"\r\nDRAWING \"d\"\r\nREVISION \"r\"\r\nUNITS USER 1200\r\nORIGIN 0 0\r\nINTERTRACK 0\r\n$ENDHEADER\r\n",
    );
    let file = interpreted(&text).unwrap();
    assert_eq!(file.header.user, "second");
    assert!(file.pads.get("a").is_none());
    assert!(file.pads.get("b").is_some());
}

#[test]
fn later_record_of_a_name_counts() {
    let lines = [
        KeywordParam { keyword: "PAD", parameter: "a ROUND -1" },
        KeywordParam { keyword: "PAD", parameter: "b ROUND -1" },
        KeywordParam { keyword: "PAD", parameter: "a RECTANGULAR 7" },
    ];
    let table = Table::new(parse_pads(&lines).unwrap());
    let found = table.get("a").unwrap();
    assert_eq!(found, &table.records[2]);
    assert_ne!(found, &table.records[0]);
    assert_eq!(table.get("b").unwrap(), &table.records[1]);
}
