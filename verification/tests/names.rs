use dmodman::names::{ends_with, is_record_name, is_sidecar_name, part_name, range_value, sidecar_name};

#[test]
fn range_value_is_bytes_offset_dash() {
    assert_eq!(range_value(500), "bytes=500-");
    assert_eq!(range_value(0), "bytes=0-");
    assert_eq!(range_value(7), "bytes=7-");
    assert_eq!(range_value(10), "bytes=10-");
    assert_eq!(range_value(1234567890), "bytes=1234567890-");
    assert_eq!(range_value(u64::MAX), "bytes=18446744073709551615-");
}

#[test]
fn names_on_disk() {
    assert_eq!(part_name("mod.zip"), "mod.zip.part");
    assert_eq!(sidecar_name("mod.zip"), "mod.zip.part.json");
    assert_eq!(part_name(""), ".part");
}

#[test]
fn suffixes() {
    assert!(ends_with("mod.zip.part", ".part"));
    assert!(ends_with("abc", ""));
    assert!(ends_with("", ""));
    assert!(!ends_with("part", ".part"));
    assert!(!ends_with("mod.zip.part.json", ".part"));
    assert!(ends_with("\u{e9}t\u{e9}.json", ".json"));
}

#[test]
fn record_and_sidecar_names() {
    assert!(is_record_name("mod.zip.json"));
    assert!(is_record_name("mod.zip.part.json"));
    assert!(!is_record_name(".json"));
    assert!(!is_record_name("mod.zip"));
    assert!(!is_record_name("modjson"));
    assert!(is_sidecar_name("mod.zip.part.json"));
    assert!(!is_sidecar_name(".part.json"));
    assert!(!is_sidecar_name("mod.zip.json"));
}
