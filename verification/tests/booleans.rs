use gencad::types::{filled_ref, flip};

#[test]
fn test_filled_ref() {
    assert_eq!(filled_ref("0"), Ok(("", false)));
    assert_eq!(filled_ref("YES"), Ok(("", true)));
}

#[test]
fn test_flip() {
    assert_eq!(flip("0"), Ok(("", false)));
    assert_eq!(flip("FLIP"), Ok(("", true)));
    assert!(flip("YES").is_err());
}
