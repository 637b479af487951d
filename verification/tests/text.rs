use openhcl_reseal::text::{
    decimal, hex, join3, needs_unit, read_utf16, same_text, strip_prefix, MAX_NAME_UNITS,
};

fn units(text: &str) -> Vec<u16> {
    let mut units: Vec<u16> = text.encode_utf16().collect();
    units.push(0);
    units
}

#[test]
fn numbers_are_written_like_format_does() {
    for number in [0, 9, 10, 32773, u32::MAX] {
        assert_eq!(decimal(number), number.to_string());
        assert_eq!(hex(number, 8), format!("{number:08x}"));
    }
    assert_eq!(hex(0xabc, 2), "bc");
    assert_eq!(hex(1, 0), "");
}

#[test]
fn texts_are_compared_cut_and_joined() {
    assert!(same_text("message", "message"));
    assert!(!same_text("message", "massage"));
    assert_eq!(strip_prefix("OPENVMM_LOG", "OPENVMM_"), "LOG");
    assert_eq!(strip_prefix("OPENVMM_", "OPENVMM_"), "");
    assert_eq!(strip_prefix("OPENVMM", "OPENVMM_"), "OPENVMM");
    assert_eq!(strip_prefix("äöü", "ä"), "öü");
    assert_eq!(join3("a", "", "bc"), "abc");
}

#[test]
fn a_name_ends_at_its_terminator() {
    assert_eq!(
        read_utf16(Some(&units("vm ä 🦀"))),
        Some("vm ä 🦀".to_string())
    );
    assert_eq!(read_utf16(Some(&[0, 65])), Some(String::new()));
    assert_eq!(read_utf16(Some(&[65, 0, 66, 0])), Some("A".to_string()));
    assert_eq!(read_utf16(None), None);
}

#[test]
fn lone_surrogates_are_no_name() {
    assert_eq!(read_utf16(Some(&[0xd800, 0])), None);
    assert_eq!(read_utf16(Some(&[65, 0xdc00, 0])), None);
    assert_eq!(
        read_utf16(Some(&[0xdbff, 0xdfff, 0])),
        Some("\u{10ffff}".to_string())
    );
}

#[test]
fn an_endless_name_is_cut() {
    let endless = vec![65; 2 * MAX_NAME_UNITS];
    assert_eq!(read_utf16(Some(&endless)), Some("A".repeat(1023)));
    let mut longest = vec![65; 1023];
    longest.push(0);
    assert_eq!(read_utf16(Some(&longest)), Some("A".repeat(1023)));
}

#[test]
fn the_scan_asks_for_enough_units_and_no_more() {
    for memory in [units("vm"), vec![65; 1500], vec![0, 7]] {
        let mut read = 0;
        while needs_unit(&memory[..read]) {
            read += 1;
        }
        assert!(read <= MAX_NAME_UNITS);
        assert_eq!(read_utf16(Some(&memory[..read])), read_utf16(Some(&memory)));
    }
    assert!(!needs_unit(&[65, 0]));
    assert!(needs_unit(&[]));
}
