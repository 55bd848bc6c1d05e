use sensitive_audit::convert::{i64_to_u64, mtime_ns_from_nanos, size_to_i64};
use sensitive_audit::error::AuditError;
use sensitive_audit::paths::{normalize_rel, root_key};
use sensitive_audit::settings::{
    has_column, partial_bytes_from_meta, partial_bytes_text, table_needs_rebuild,
    DEFAULT_PARTIAL_BYTES,
};
use sensitive_audit::text::{
    csv_escape, csv_header, csv_row, decimal_string, normalize_separators, parse_decimal_u64,
    parse_list_line, tilde_remainder,
};

#[test]
fn decimal_string_writes_plain_decimal() {
    assert_eq!(decimal_string(0), "0");
    assert_eq!(decimal_string(7), "7");
    assert_eq!(decimal_string(65536), "65536");
    assert_eq!(decimal_string(u64::MAX), "18446744073709551615");
}

#[test]
fn parse_decimal_u64_accepts_what_std_accepts() {
    for text in ["0", "65536", "+7", "0007", "18446744073709551615", "", "+", "-1", "12a", " 1", "1 ", "18446744073709551616", "99999999999999999999999"] {
        assert_eq!(parse_decimal_u64(text), text.parse::<u64>().ok(), "input {text:?}");
    }
    assert_eq!(parse_decimal_u64("+7"), Some(7));
    assert_eq!(parse_decimal_u64("18446744073709551616"), None);
}

#[test]
fn decimal_round_trip_on_values() {
    for n in [0u64, 1, 9, 10, 65536, 1_000_000_007, u64::MAX] {
        assert_eq!(parse_decimal_u64(&decimal_string(n)), Some(n));
    }
}

#[test]
fn partial_bytes_setting_round_trip() {
    for n in [1u64, 4096, 65536, u64::MAX] {
        let stored = partial_bytes_text(n);
        assert_eq!(partial_bytes_from_meta(Some(stored.as_str())), n);
    }
    assert_eq!(partial_bytes_from_meta(None), DEFAULT_PARTIAL_BYTES);
    assert_eq!(partial_bytes_from_meta(Some("not a number")), 65536);
}

#[test]
fn csv_escape_plain_value_unchanged() {
    assert_eq!(csv_escape("/mnt/copied-data/renamed/file.bin"), "/mnt/copied-data/renamed/file.bin");
    assert_eq!(csv_escape(""), "");
}

#[test]
fn csv_escape_quotes_special_values() {
    assert_eq!(csv_escape("a,b"), "\"a,b\"");
    assert_eq!(csv_escape("say \"hi\""), "\"say \"\"hi\"\"\"");
    assert_eq!(csv_escape("line\nbreak"), "\"line\nbreak\"");
    assert_eq!(csv_escape("\""), "\"\"\"\"");
}

fn read_field(t: &str) -> String {
    if t.len() >= 2 && t.starts_with('"') && t.ends_with('"') {
        t[1..t.len() - 1].replace("\"\"", "\"")
    } else {
        t.to_string()
    }
}

#[test]
fn csv_field_round_trip_on_values() {
    for v in ["plain", "a,b", "q\"q", "\"\"", "x\ny", "", "tail\""] {
        assert_eq!(read_field(&csv_escape(v)), v);
    }
}

#[test]
fn csv_row_matches_report_format() {
    assert_eq!(csv_header(), "dest_path,source_path,size,hash_algorithm,full_hash");
    assert_eq!(
        csv_row("/dst/a,b.bin", "/src/x.bin", 1234, "abcd"),
        "\"/dst/a,b.bin\",/src/x.bin,1234,blake3,abcd"
    );
}

#[test]
fn separators_become_forward_slashes() {
    assert_eq!(normalize_separators("a\\b/c\\\\d"), "a/b/c//d");
    assert_eq!(root_key("C:\\data\\copy"), "C:/data/copy");
    assert_eq!(root_key("/mnt/copied-data"), "/mnt/copied-data");
    let once = normalize_separators("x\\y");
    assert_eq!(normalize_separators(&once), once);
}

#[test]
fn normalize_rel_strips_root() {
    assert_eq!(normalize_rel("/mnt/dest/a/b.txt", "/mnt/dest"), Ok("a/b.txt".to_string()));
    assert_eq!(normalize_rel("/mnt/dest", "/mnt/dest"), Ok(String::new()));
    assert_eq!(normalize_rel("/other/x", "/mnt/dest"), Err(AuditError::PathNotUnderRoot));
    assert_eq!(normalize_rel("/mnt/destination/x", "/mnt/dest"), Err(AuditError::PathNotUnderRoot));
}

#[test]
fn tilde_prefixes() {
    assert_eq!(tilde_remainder("~/audit.db"), Some("audit.db".to_string()));
    assert_eq!(tilde_remainder("~\\audit.db"), Some("audit.db".to_string()));
    assert_eq!(tilde_remainder("~"), Some(String::new()));
    assert_eq!(tilde_remainder("~user/x"), None);
    assert_eq!(tilde_remainder("/abs/~/x"), None);
    assert_eq!(tilde_remainder(""), None);
}

#[test]
fn list_lines() {
    assert_eq!(parse_list_line("finance/payroll/export.csv"), Some("finance/payroll/export.csv".to_string()));
    assert_eq!(parse_list_line("  users/alice/private.key \t\r"), Some("users/alice/private.key".to_string()));
    assert_eq!(parse_list_line(""), None);
    assert_eq!(parse_list_line("   \t"), None);
    assert_eq!(parse_list_line("# comment"), None);
    assert_eq!(parse_list_line("   # indented comment"), None);
    assert_eq!(parse_list_line("a # not a comment"), Some("a # not a comment".to_string()));
    assert_eq!(parse_list_line("\u{3000}x\u{a0}"), Some("x".to_string()));
}

#[test]
fn size_conversions() {
    assert_eq!(size_to_i64(0), Ok(0));
    assert_eq!(size_to_i64(i64::MAX as u64), Ok(i64::MAX));
    assert_eq!(size_to_i64(i64::MAX as u64 + 1), Err(AuditError::SizeOutOfRange(i64::MAX as u64 + 1)));
    assert_eq!(i64_to_u64(42), Ok(42));
    assert_eq!(i64_to_u64(-1), Err(AuditError::NegativeInteger(-1)));
    for size in [0u64, 1, 1 << 40, i64::MAX as u64] {
        assert_eq!(i64_to_u64(size_to_i64(size).unwrap()), Ok(size));
    }
}

#[test]
fn mtime_clamping() {
    assert_eq!(mtime_ns_from_nanos(None), 0);
    assert_eq!(mtime_ns_from_nanos(Some(1_700_000_000_000_000_000)), 1_700_000_000_000_000_000);
    assert_eq!(mtime_ns_from_nanos(Some(i64::MAX as u128 + 1)), i64::MAX);
    assert_eq!(mtime_ns_from_nanos(Some(u128::MAX)), i64::MAX);
}

#[test]
fn error_messages() {
    assert_eq!(
        AuditError::SizeOutOfRange(9223372036854775808).message(),
        "file size 9223372036854775808 exceeds SQLite INTEGER range"
    );
    assert_eq!(AuditError::CommitEveryZero.message(), "--commit-every must be greater than zero");
    assert_eq!(AuditError::PartialBytesZero.message(), "--partial-bytes must be greater than zero");
    assert_eq!(AuditError::ThreadsZero.message(), "--threads must be greater than zero");
    assert_eq!(
        AuditError::EmptyIndex.message(),
        "database contains no sensitive file index; run index-sensitive first"
    );
}

#[test]
fn schema_helpers() {
    let names = vec!["root".to_string(), "dest_rel".to_string()];
    assert!(has_column(&names, &"root".to_string()));
    assert!(!has_column(&names, &"size".to_string()));
    assert!(!has_column(&Vec::new(), &"root".to_string()));
    assert!(table_needs_rebuild(true, false));
    assert!(!table_needs_rebuild(true, true));
    assert!(!table_needs_rebuild(false, false));
}
