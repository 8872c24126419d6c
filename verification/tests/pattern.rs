use steamless_core::pattern::find_pattern;

#[test]
fn test_pattern_find() {
    let data = vec![0x55, 0x8B, 0xEC, 0x81, 0xEC, 0x00, 0x10, 0x00, 0x00];
    assert_eq!(find_pattern(&data, "55 8B EC 81 EC ?? ?? ?? ??"), Some(0));
    assert_eq!(find_pattern(&data, "81 EC 00"), Some(3));
    assert_eq!(find_pattern(&data, "FF FF"), None);
}

#[test]
fn pattern_doc_example() {
    let data = [0x90, 0xE8, 0x00, 0x00, 0x00, 0x00, 0x50];
    assert_eq!(find_pattern(&data, "E8 00 00 00 00 50"), Some(1));
}

#[test]
fn pattern_reports_first_occurrence() {
    let data = [0x01, 0xAA, 0x02, 0xAA, 0x02, 0xAA, 0x02];
    assert_eq!(find_pattern(&data, "AA 02"), Some(1));
    assert_eq!(find_pattern(&data, "?? 02"), Some(1));
    assert_eq!(find_pattern(&data, "02 AA 02"), Some(2));
}

#[test]
fn pattern_wildcards_single_and_double() {
    let data = [0x10, 0x20, 0x30];
    assert_eq!(find_pattern(&data, "10 ? 30"), Some(0));
    assert_eq!(find_pattern(&data, "?? ?? 30"), Some(0));
    assert_eq!(find_pattern(&data, "?? 30"), Some(1));
}

#[test]
fn pattern_empty_or_too_long_gives_none() {
    let data = [0x10, 0x20];
    assert_eq!(find_pattern(&data, ""), None);
    assert_eq!(find_pattern(&data, "   "), None);
    assert_eq!(find_pattern(&data, "10 20 30"), None);
    assert_eq!(find_pattern(&[], "10"), None);
}

#[test]
fn pattern_malformed_token_gives_none() {
    let data = [0x10, 0x20, 0x30];
    assert_eq!(find_pattern(&data, "10 ZZ"), None);
    assert_eq!(find_pattern(&data, "100"), None);
    assert_eq!(find_pattern(&data, "???"), None);
}

#[test]
fn pattern_token_forms_of_from_str_radix() {
    let data = [0x0A, 0x0B, 0xFF];
    assert_eq!(find_pattern(&data, "a b"), Some(0));
    assert_eq!(find_pattern(&data, "+0B ff"), Some(1));
    assert_eq!(find_pattern(&data, "\t0a\n0B  "), Some(0));
    assert_eq!(find_pattern(&data, "000ff"), Some(2));
}
