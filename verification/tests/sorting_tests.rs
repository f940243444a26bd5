use cargo_app::protocol::RemoteEntry;
use cargo_app::sorting::{row_from_entry, row_order_of, FileRow, SortColumn, SortOrder};

fn row(name: &str, is_dir: bool, size: u64, modified: i64, permissions: &str) -> FileRow {
    FileRow {
        name: name.to_string(),
        is_dir,
        size,
        modified,
        permissions: permissions.to_string(),
    }
}

#[test]
fn name_order_ignores_case() {
    let a = row("apple", false, 0, 0, "");
    let b = row("Banana", false, 0, 0, "");
    assert_eq!(row_order_of(SortColumn::Name, &a, &b), SortOrder::Smaller);
    assert_eq!(row_order_of(SortColumn::Name, &b, &a), SortOrder::Larger);
    let c = row("APPLE", false, 0, 0, "");
    assert_eq!(row_order_of(SortColumn::Name, &a, &c), SortOrder::Equal);
}

#[test]
fn name_order_puts_directories_first() {
    let dir = row("zeta", true, 0, 0, "");
    let file = row("alpha", false, 0, 0, "");
    assert_eq!(row_order_of(SortColumn::Name, &dir, &file), SortOrder::Smaller);
    assert_eq!(row_order_of(SortColumn::Name, &file, &dir), SortOrder::Larger);
}

#[test]
fn name_order_puts_prefix_first() {
    let a = row("file", false, 0, 0, "");
    let b = row("file.txt", false, 0, 0, "");
    assert_eq!(row_order_of(SortColumn::Name, &a, &b), SortOrder::Smaller);
}

#[test]
fn size_and_time_order_as_numbers() {
    let a = row("a", false, 9, -5, "");
    let b = row("b", false, 10, 3, "");
    assert_eq!(row_order_of(SortColumn::Size, &a, &b), SortOrder::Smaller);
    assert_eq!(row_order_of(SortColumn::Size, &a, &a), SortOrder::Equal);
    assert_eq!(row_order_of(SortColumn::Modified, &b, &a), SortOrder::Larger);
}

#[test]
fn permissions_order_as_text() {
    let a = row("a", false, 0, 0, "755");
    let b = row("b", false, 0, 0, "-rw-r--r--");
    assert_eq!(row_order_of(SortColumn::Permissions, &a, &b), SortOrder::Larger);
    assert_eq!(row_order_of(SortColumn::Permissions, &b, &a), SortOrder::Smaller);
}

#[test]
fn rows_from_entries_fill_unknowns() {
    let e = RemoteEntry {
        name: "x.txt".to_string(),
        is_dir: false,
        size: 12,
        modified: None,
        permissions: None,
        owner: Some("1000".to_string()),
    };
    let r = row_from_entry(&e);
    assert_eq!(r.name, "x.txt");
    assert_eq!(r.size, 12);
    assert_eq!(r.modified, 0);
    assert_eq!(r.permissions, "");
    assert!(!r.is_dir);
}
