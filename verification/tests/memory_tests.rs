use csgo_internal::memory::{pattern_is_well_formed, pattern_scan, pattern_to_bytes};

#[test]
fn pattern_to_bytes_reads_hex_pairs() {
    assert_eq!(pattern_to_bytes("AB CD".to_string()), vec![0xAB, 0xCD]);
    assert_eq!(pattern_to_bytes("abcd".to_string()), vec![0xAB, 0xCD]);
    assert_eq!(pattern_to_bytes("".to_string()), Vec::<i32>::new());
    assert_eq!(pattern_to_bytes("A".to_string()), vec![0xA]);
}

#[test]
fn pattern_to_bytes_drops_chunks_with_wildcards() {
    // Spaces go first, so single '?' wildcards shift the pairing of what follows.
    assert_eq!(
        pattern_to_bytes("C6 87 ? ? ? ? ? 8B 06 8B CE FF 90".to_string()),
        vec![0xC6, 0x87, 0xB0, 0x68, 0xBC, 0xEF, 0xF9, 0x0]
    );
    assert_eq!(pattern_to_bytes("?? 12".to_string()), vec![0x12]);
}

#[test]
fn pattern_to_bytes_reads_signed_chunks() {
    assert_eq!(pattern_to_bytes("-1 FF".to_string()), vec![-1, 0xFF]);
    assert_eq!(pattern_to_bytes("+5".to_string()), vec![5]);
}

#[test]
fn pattern_well_formedness() {
    assert!(pattern_is_well_formed("C6 87 ? ? ? ? ? 8B 06 8B CE FF 90"));
    assert!(pattern_is_well_formed(""));
    assert!(pattern_is_well_formed("?x"));
    assert!(!pattern_is_well_formed("ZZ"));
    assert!(!pattern_is_well_formed("A-"));
    assert!(!pattern_is_well_formed("+"));
    assert!(!pattern_is_well_formed("é1"));
}

#[test]
fn pattern_scan_finds_first_match() {
    let image = [0x00u8, 0x01, 0xAB, 0xCD, 0x05, 0xAB, 0xCD, 0x07];
    assert_eq!(pattern_scan(0x1000, &image, "AB CD"), 0x1002);
    assert_eq!(pattern_scan(0x1000, &image, "CD 05"), 0x1003);
    assert_eq!(pattern_scan(0x1000, &image, "EE"), 0);
}

#[test]
fn pattern_scan_minus_one_matches_any_byte() {
    let image = [0x10u8, 0x20, 0x30, 0x40];
    assert_eq!(pattern_scan(0x400, &image, "-1 30"), 0x401);
}

#[test]
fn pattern_scan_stops_before_the_last_position() {
    // Offsets below image.len() - pattern.len() are tried, so a match that
    // ends exactly at the end of the image is not reported.
    let image = [0x01u8, 0x02, 0xAB, 0xCD];
    assert_eq!(pattern_scan(0x2000, &image, "AB CD"), 0);
    assert_eq!(pattern_scan(0x2000, &image, "02 AB"), 0x2001);
}

#[test]
fn pattern_scan_with_empty_pattern_reports_the_base() {
    let image = [0x01u8, 0x02];
    assert_eq!(pattern_scan(0x3000, &image, ""), 0x3000);
    assert_eq!(pattern_scan(0x3000, &[], ""), 0);
}
