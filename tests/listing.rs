use twinpane::listing::{
    matches_folded, convert_rwx_bits, describe_entry, entry_row, filter_dir, format_timestamp, listing_rows,
    AttributeMode, LocalTime, RawEntry,
};

fn rows(data: &[&[&str]]) -> Vec<Vec<String>> {
    data.iter().map(|r| r.iter().map(|c| c.to_string()).collect()).collect()
}

fn entry(name: &str, is_dir: bool, size: u64, mode: u32) -> RawEntry {
    RawEntry {
        name: name.to_string(),
        is_dir,
        modified: 1_700_000_000,
        size,
        uid: 0,
        gid: 0,
        mode,
    }
}

#[test]
fn permission_string_754() {
    assert_eq!(convert_rwx_bits(0o754), "rwxr-xr--");
}

#[test]
fn permission_string_644() {
    assert_eq!(convert_rwx_bits(0o644), "rw-r--r--");
}

#[test]
fn permission_string_ignores_type_bits() {
    assert_eq!(convert_rwx_bits(0o100755), "rwxr-xr-x");
    assert_eq!(convert_rwx_bits(0), "---------");
    assert_eq!(convert_rwx_bits(0o777), "rwxrwxrwx");
}

#[test]
fn timestamp_is_zero_padded() {
    let t = LocalTime { year: 2024, month: 3, day: 7, hour: 9, minute: 5 };
    assert_eq!(format_timestamp(&t), "07/03/2024 09:05");
    let t = LocalTime { year: 1999, month: 12, day: 31, hour: 23, minute: 59 };
    assert_eq!(format_timestamp(&t), "31/12/1999 23:59");
}

#[test]
fn basic_row_has_two_columns() {
    let t = LocalTime { year: 2024, month: 1, day: 2, hour: 3, minute: 4 };
    let row = entry_row(&entry("docs", true, 4096, 0o755), AttributeMode::Basic, &t, None, None);
    assert_eq!(row, vec!["/docs".to_string(), "02/01/2024 03:04".to_string()]);
}

#[test]
fn extended_row_has_six_columns() {
    let t = LocalTime { year: 2024, month: 1, day: 2, hour: 3, minute: 4 };
    let row = entry_row(
        &entry("a.txt", false, 1234, 0o644),
        AttributeMode::Extended,
        &t,
        Some("alice".to_string()),
        None,
    );
    assert_eq!(
        row,
        vec![
            "a.txt".to_string(),
            "02/01/2024 03:04".to_string(),
            "1234".to_string(),
            "alice".to_string(),
            "Unknown".to_string(),
            "rw-r--r--".to_string(),
        ]
    );
}

#[test]
fn described_entries_take_the_mode_shape() {
    let entries = vec![entry("a", false, 0, 0o600), entry("b", true, 10, 0o750)];
    let basic = listing_rows(&entries, AttributeMode::Basic).unwrap();
    assert_eq!(basic.len(), 2);
    assert!(basic.iter().all(|r| r.len() == 2));
    assert_eq!(basic[0][0], "a");
    assert_eq!(basic[1][0], "/b");
    let ext = listing_rows(&entries, AttributeMode::Extended).unwrap();
    assert!(ext.iter().all(|r| r.len() == 6));
    assert_eq!(ext[1][2], "10");
    assert_eq!(ext[1][5], "rwxr-x---");
}

#[test]
fn described_time_is_a_calendar_time() {
    let row = describe_entry(&entry("a", false, 0, 0o600), AttributeMode::Basic).unwrap();
    let t = row[1].as_bytes();
    assert_eq!(t.len(), 16);
    assert_eq!(t[2], b'/');
    assert_eq!(t[5], b'/');
    assert_eq!(t[10], b' ');
    assert_eq!(t[13], b':');
    assert!(row[1].starts_with(|c: char| c.is_ascii_digit()));
    assert!(row[1].contains("/2023 "));
}

#[test]
fn filter_with_empty_keyword_keeps_all_rows() {
    let r = rows(&[&["a.txt", "x"], &["B.md", "y"], &[]]);
    assert_eq!(filter_dir(&r, ""), r);
}

#[test]
fn filter_ignores_case() {
    let r = rows(&[&["Report.TXT", "01/01/2024 10:00"], &["notes.md", "02/01/2024 11:00"]]);
    assert_eq!(filter_dir(&r, "report"), rows(&[&["Report.TXT", "01/01/2024 10:00"]]));
    assert_eq!(filter_dir(&r, "NOTES"), rows(&[&["notes.md", "02/01/2024 11:00"]]));
}

#[test]
fn filter_matches_any_column() {
    let r = rows(&[&["a", "01/01/2024 10:00"], &["b", "02/02/2023 11:00"]]);
    assert_eq!(filter_dir(&r, "2023"), rows(&[&["b", "02/02/2023 11:00"]]));
    assert_eq!(filter_dir(&r, "zzz"), Vec::<Vec<String>>::new());
}

#[test]
fn filter_twice_is_filter_once() {
    let r = rows(&[&["alpha", "1"], &["beta", "2"], &["ALPHABET", "3"], &["gamma", "alp"]]);
    let once = filter_dir(&r, "alp");
    assert_eq!(once.len(), 3);
    assert_eq!(filter_dir(&once, "alp"), once);
}

#[test]
fn folded_matching_compares_as_given() {
    let row = vec!["report.txt".to_string(), "01/01/2024".to_string()];
    assert!(matches_folded(&row, "report"));
    assert!(matches_folded(&row, "2024"));
    assert!(!matches_folded(&row, "REPORT"));
    assert!(matches_folded(&row, ""));
    assert!(!matches_folded(&Vec::new(), ""));
}

#[test]
fn entries_in_calendar_are_always_listed() {
    let mut early = entry("old", false, 1, 0o644);
    early.modified = -62_135_596_800;
    let mut late = entry("new", true, 2, 0o755);
    late.modified = 253_402_300_799;
    let rows = listing_rows(&vec![early, late], AttributeMode::Extended).unwrap();
    assert_eq!(rows.len(), 2);
    assert_eq!(rows[0][0], "old");
    assert_eq!(rows[1][0], "/new");
}
