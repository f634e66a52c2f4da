use waw::drop_zone::{accepts_drag, drag_payload, parse_payload, read_drop, DropZone, PAYLOAD_TYPE};

#[test]
fn payload_type_is_the_desktops_own() {
    assert_eq!(PAYLOAD_TYPE, "application/waw");
}

#[test]
fn parses_decimal_ids() {
    assert_eq!(parse_payload("0"), Some(0));
    assert_eq!(parse_payload("7"), Some(7));
    assert_eq!(parse_payload("42"), Some(42));
    assert_eq!(parse_payload("9999"), Some(9999));
    assert_eq!(parse_payload("0007"), Some(7));
    assert_eq!(parse_payload("+12"), Some(12));
}

#[test]
fn rejects_what_is_no_id() {
    assert_eq!(parse_payload("abc"), None);
    assert_eq!(parse_payload(""), None);
    assert_eq!(parse_payload("+"), None);
    assert_eq!(parse_payload("-1"), None);
    assert_eq!(parse_payload("++1"), None);
    assert_eq!(parse_payload("1+"), None);
    assert_eq!(parse_payload(" 1"), None);
    assert_eq!(parse_payload("1 "), None);
    assert_eq!(parse_payload("1_000"), None);
    assert_eq!(parse_payload("12a"), None);
    assert_eq!(parse_payload("0x10"), None);
    assert_eq!(parse_payload("1.0"), None);
    assert_eq!(parse_payload("\u{661}"), None);
    assert_eq!(parse_payload("1\u{e9}"), None);
}

#[test]
fn largest_id_and_overflow() {
    let largest = usize::MAX.to_string();
    assert_eq!(parse_payload(&largest), Some(usize::MAX));
    let mut beyond = largest.clone();
    beyond.push('0');
    assert_eq!(parse_payload(&beyond), None);
    let digits: Vec<char> = largest.chars().collect();
    let last = digits[digits.len() - 1];
    if last != '9' {
        let mut next: String = digits[..digits.len() - 1].iter().collect();
        next.push(((last as u8) + 1) as char);
        assert_eq!(parse_payload(&next), None);
    }
    assert_eq!(parse_payload("99999999999999999999999999999999999999999"), None);
    assert_eq!(parse_payload("99999999999999999999999999999999999999999x"), None);
}

#[test]
fn parser_agrees_with_the_standard_one() {
    let samples = [
        "", "0", "1", "10", "+0", "+", "-", "-0", "00", "+00", "a", "1a", "a1", "18446744073709551615",
        "18446744073709551616", "+18446744073709551615", "4294967295", "4294967296", " 5", "5\n",
        "٣", "１２", "+-1", "1e3", "0000000000000000000000000000000000001",
    ];
    for text in samples {
        assert_eq!(parse_payload(text), text.parse::<usize>().ok(), "payload {:?}", text);
    }
    for value in 0..2000usize {
        let text = value.to_string();
        assert_eq!(parse_payload(&text), Some(value));
    }
}

#[test]
fn drag_payload_is_the_decimal_id() {
    assert_eq!(drag_payload(0), "0");
    assert_eq!(drag_payload(9), "9");
    assert_eq!(drag_payload(10), "10");
    assert_eq!(drag_payload(42), "42");
    assert_eq!(drag_payload(1000), "1000");
    assert_eq!(drag_payload(usize::MAX), usize::MAX.to_string());
}

#[test]
fn payload_round_trip() {
    let ids: [usize; 8] = [0, 1, 9, 10, 99, 100, 12345, usize::MAX];
    for id in ids {
        assert_eq!(parse_payload(&drag_payload(id)), Some(id));
    }
}

#[test]
fn read_drop_needs_a_payload() {
    assert_eq!(read_drop(None), None);
    assert_eq!(read_drop(Some("abc")), None);
    assert_eq!(read_drop(Some("")), None);
    assert_eq!(read_drop(Some("3")), Some(3));
}

#[test]
fn accepts_only_drags_with_the_payload_type() {
    assert!(!accepts_drag(&vec![]));
    assert!(!accepts_drag(&vec!["text/plain".to_string()]));
    assert!(!accepts_drag(&vec!["application/waw2".to_string(), "Files".to_string()]));
    assert!(!accepts_drag(&vec!["APPLICATION/WAW".to_string()]));
    assert!(accepts_drag(&vec!["application/waw".to_string()]));
    assert!(accepts_drag(&vec!["text/plain".to_string(), "application/waw".to_string()]));
}

#[test]
fn drop_zone_follows_the_hovering_drag() {
    let mut zone = DropZone::create();
    assert!(!zone.over);
    assert!(zone.update(true));
    assert!(zone.over);
    assert!(zone.update(true));
    assert!(zone.over);
    assert!(zone.update(false));
    assert!(!zone.over);
}
