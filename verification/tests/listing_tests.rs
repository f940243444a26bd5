use cargo_app::ftp_listing::{parse_ftp_list_entry, parse_ftp_listing};
use cargo_app::numbers::{decimal_string, octal_string, parse_unsigned_chars};
use cargo_app::protocol::{
    sftp_entry, sftp_listing, RemoteEntry, SftpAttrs,
};
use cargo_app::text::{chars_of, split_whitespace, string_from, trim_chars};

fn chars(s: &str) -> Vec<char> {
    s.chars().collect()
}

#[test]
fn decimal_and_octal_forms() {
    assert_eq!(decimal_string(0), "0");
    assert_eq!(decimal_string(1234), "1234");
    assert_eq!(decimal_string(u64::MAX), "18446744073709551615");
    assert_eq!(octal_string(0), "0");
    assert_eq!(octal_string(493), "755");
    assert_eq!(octal_string(0o100644), "100644");
}

#[test]
fn unsigned_parsing_follows_from_str_radix() {
    assert_eq!(parse_unsigned_chars(&chars("42"), 10, u64::MAX), Some(42));
    assert_eq!(parse_unsigned_chars(&chars("+42"), 10, u64::MAX), Some(42));
    assert_eq!(parse_unsigned_chars(&chars("007"), 10, u64::MAX), Some(7));
    assert_eq!(parse_unsigned_chars(&chars("-1"), 10, u64::MAX), None);
    assert_eq!(parse_unsigned_chars(&chars("+"), 10, u64::MAX), None);
    assert_eq!(parse_unsigned_chars(&chars("-"), 10, u64::MAX), None);
    assert_eq!(parse_unsigned_chars(&chars(""), 10, u64::MAX), None);
    assert_eq!(parse_unsigned_chars(&chars("++1"), 10, u64::MAX), None);
    assert_eq!(parse_unsigned_chars(&chars("12a"), 10, u64::MAX), None);
    assert_eq!(
        parse_unsigned_chars(&chars("18446744073709551615"), 10, u64::MAX),
        Some(u64::MAX)
    );
    assert_eq!(parse_unsigned_chars(&chars("18446744073709551616"), 10, u64::MAX), None);
    assert_eq!(parse_unsigned_chars(&chars("777"), 8, 0xffff_ffff), Some(511));
    assert_eq!(parse_unsigned_chars(&chars("8"), 8, 0xffff_ffff), None);
    assert_eq!(parse_unsigned_chars(&chars("37777777777"), 8, 0xffff_ffff), Some(0xffff_ffff));
    assert_eq!(parse_unsigned_chars(&chars("40000000000"), 8, 0xffff_ffff), None);
    for n in [0u64, 1, 9, 10, 99, 12345, u64::MAX] {
        assert_eq!(parse_unsigned_chars(&chars(&n.to_string()), 10, u64::MAX), Some(n));
        assert_eq!(parse_unsigned_chars(&chars(&octal_string(n)), 8, u64::MAX), Some(n));
    }
}

#[test]
fn text_helpers_match_std() {
    for s in ["", "  a  b\t c \n", "\u{3000}x\u{a0}y\u{85}", "one", "   "] {
        let v = chars_of(s);
        assert_eq!(string_from(&trim_chars(&v)), s.trim());
        let words: Vec<String> = split_whitespace(&v).iter().map(|w| string_from(w)).collect();
        let expected: Vec<String> = s.split_whitespace().map(|w| w.to_string()).collect();
        assert_eq!(words, expected);
    }
}

fn entry(line: &str) -> Option<RemoteEntry> {
    parse_ftp_list_entry(line)
}

#[test]
fn ftp_directory_line() {
    let e = entry("drwxr-xr-x  2 user group  4096 Feb 23 10:30 dirname").unwrap();
    assert_eq!(e.name, "dirname");
    assert!(e.is_dir);
    assert_eq!(e.size, 4096);
    assert_eq!(e.modified, None);
    assert_eq!(e.permissions.as_deref(), Some("drwxr-xr-x"));
    assert_eq!(e.owner.as_deref(), Some("user"));
}

#[test]
fn ftp_file_line() {
    let e = entry("-rw-r--r--  1 user group 12345 Feb 23 10:30 filename.txt").unwrap();
    assert_eq!(e.name, "filename.txt");
    assert!(!e.is_dir);
    assert_eq!(e.size, 12345);
    assert_eq!(e.permissions.as_deref(), Some("-rw-r--r--"));
}

#[test]
fn ftp_name_with_spaces_is_joined_by_single_spaces() {
    let e = entry("-rw-r--r--  1 user group 10 Feb 23 10:30 my   holiday\tphoto.jpg").unwrap();
    assert_eq!(e.name, "my holiday photo.jpg");
}

#[test]
fn ftp_lines_without_entries() {
    assert!(entry("").is_none());
    assert!(entry("   \t ").is_none());
    assert!(entry("total 48").is_none());
    assert!(entry("  total 48  ").is_none());
    assert!(entry("drwxr-xr-x  2 user group  4096 Feb 23 10:30 .").is_none());
    assert!(entry("drwxr-xr-x  2 user group  4096 Feb 23 10:30 ..").is_none());
}

#[test]
fn ftp_short_line_is_a_bare_name() {
    let e = entry("  just a name  ").unwrap();
    assert_eq!(e.name, "just a name");
    assert!(!e.is_dir);
    assert_eq!(e.size, 0);
    assert_eq!(e.permissions, None);
    assert_eq!(e.owner, None);
    let t = entry("totally").unwrap();
    assert_eq!(t.name, "totally");
}

#[test]
fn ftp_bad_size_is_zero() {
    let e = entry("-rw-r--r--  1 user group big Feb 23 10:30 f").unwrap();
    assert_eq!(e.size, 0);
    let e = entry("-rw-r--r--  1 user group 99999999999999999999 Feb 23 10:30 f").unwrap();
    assert_eq!(e.size, 0);
}

#[test]
fn ftp_listing_keeps_order_and_drops_summary() {
    let lines: Vec<String> = vec![
        "total 8".to_string(),
        "drwxr-xr-x 2 u g 4096 Jan 1 00:00 .".to_string(),
        "drwxr-xr-x 2 u g 4096 Jan 1 00:00 docs".to_string(),
        "".to_string(),
        "-rw-r--r-- 1 u g 3 Jan 1 00:00 a.txt".to_string(),
    ];
    let entries = parse_ftp_listing(&lines);
    let names: Vec<&str> = entries.iter().map(|e| e.name.as_str()).collect();
    assert_eq!(names, vec!["docs", "a.txt"]);
}

fn attrs(name: &str) -> SftpAttrs {
    SftpAttrs {
        name: name.to_string(),
        is_dir: false,
        size: Some(10),
        mtime: Some(1700000000),
        permissions: Some(0o100644),
        uid: Some(1000),
    }
}

#[test]
fn sftp_entry_conversion() {
    let e = sftp_entry(&attrs("notes.txt")).unwrap();
    assert_eq!(e.name, "notes.txt");
    assert_eq!(e.size, 10);
    assert_eq!(e.modified, Some(1700000000));
    assert_eq!(e.permissions.as_deref(), Some("644"));
    assert_eq!(e.owner.as_deref(), Some("1000"));
    let mut a = attrs("x");
    a.size = None;
    a.mtime = None;
    a.permissions = None;
    a.uid = None;
    let e = sftp_entry(&a).unwrap();
    assert_eq!(e.size, 0);
    assert_eq!(e.modified, None);
    assert_eq!(e.permissions, None);
    assert_eq!(e.owner, None);
    assert!(sftp_entry(&attrs(".")).is_none());
    assert!(sftp_entry(&attrs("..")).is_none());
}

#[test]
fn sftp_listing_filters_dot_entries() {
    let v = vec![attrs("."), attrs("b"), attrs(".."), attrs(".hidden")];
    let names: Vec<String> = sftp_listing(&v).into_iter().map(|e| e.name).collect();
    assert_eq!(names, vec!["b".to_string(), ".hidden".to_string()]);
}

#[test]
fn ftp_bare_dot_line_is_kept_as_a_name() {
    let e = entry(" . ").unwrap();
    assert_eq!(e.name, ".");
    assert!(!e.is_dir);
}
