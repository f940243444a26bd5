use cargo_app::conflict::{
    generate_rename, remote_file_exists, resolution_from_dialog, should_transfer, transfer_target,
    ConflictAction, ConflictFacts, ConflictResolution, TransferTarget,
};
use cargo_app::transfer::TransferDirection;
use cargo_app::permissions::{
    checks_for_entry, checks_for_mode, chmod_result, mode_from_checks, mode_text,
    parse_octal, parse_permissions, ChmodResult,
};
use cargo_app::protocol::RemoteEntry;

fn remote(name: &str, is_dir: bool, size: u64) -> RemoteEntry {
    RemoteEntry {
        name: name.to_string(),
        is_dir,
        size,
        modified: Some(5),
        permissions: None,
        owner: None,
    }
}

#[test]
fn rename_inserts_counter_before_extension() {
    assert_eq!(generate_rename("file.txt"), "file (1).txt");
    assert_eq!(generate_rename("/a/b/file.txt"), "/a/b/file (1).txt");
    assert_eq!(generate_rename("/a/b/archive.tar.gz"), "/a/b/archive.tar (1).gz");
    assert_eq!(generate_rename("noext"), "noext (1)");
    assert_eq!(generate_rename("/dir.d/file"), "/dir.d/file (1)");
    assert_eq!(generate_rename("/home/.bashrc"), "/home/ (1).bashrc");
    assert_eq!(generate_rename(""), " (1)");
}

#[test]
fn conflict_actions() {
    assert_eq!(should_transfer(ConflictAction::Overwrite, 1, None, 1, None, "/d/f"), (true, "/d/f".to_string()));
    assert_eq!(should_transfer(ConflictAction::Skip, 1, None, 2, None, "/d/f"), (false, "/d/f".to_string()));
    assert_eq!(should_transfer(ConflictAction::OverwriteIfSizeDiffers, 1, None, 2, None, "p"), (true, "p".to_string()));
    assert_eq!(should_transfer(ConflictAction::OverwriteIfSizeDiffers, 2, None, 2, None, "p"), (false, "p".to_string()));
    assert_eq!(should_transfer(ConflictAction::OverwriteIfNewer, 0, Some(10), 0, Some(5), "p"), (true, "p".to_string()));
    assert_eq!(should_transfer(ConflictAction::OverwriteIfNewer, 0, Some(5), 0, Some(5), "p"), (false, "p".to_string()));
    assert_eq!(should_transfer(ConflictAction::OverwriteIfNewer, 0, None, 0, Some(5), "p"), (true, "p".to_string()));
    assert_eq!(should_transfer(ConflictAction::Rename, 0, None, 0, None, "/d/f.txt"), (true, "/d/f (1).txt".to_string()));
}

#[test]
fn finding_remote_files() {
    let entries = vec![remote("a", true, 0), remote("a", false, 3), remote("b", false, 4)];
    assert_eq!(remote_file_exists(&entries, "a").unwrap().size, 3);
    assert_eq!(remote_file_exists(&entries, "b").unwrap().size, 4);
    assert!(remote_file_exists(&entries, "c").is_none());
    assert!(remote_file_exists(&entries[..1], "a").is_none());
}

#[test]
fn overwrite_dialog_answers() {
    assert_eq!(resolution_from_dialog(false, true, true, true, true, true), None);
    assert_eq!(
        resolution_from_dialog(true, false, false, false, false, false),
        Some(ConflictResolution { action: ConflictAction::Overwrite, apply_to_queue: false })
    );
    assert_eq!(
        resolution_from_dialog(true, false, true, true, false, true),
        Some(ConflictResolution { action: ConflictAction::OverwriteIfNewer, apply_to_queue: true })
    );
    assert_eq!(
        resolution_from_dialog(true, false, false, false, true, false).unwrap().action,
        ConflictAction::Rename
    );
    assert_eq!(
        resolution_from_dialog(true, true, false, false, false, false).unwrap().action,
        ConflictAction::OverwriteIfSizeDiffers
    );
    assert_eq!(
        resolution_from_dialog(true, false, false, true, true, false).unwrap().action,
        ConflictAction::Skip
    );
}

#[test]
fn permission_strings() {
    assert_eq!(parse_permissions(""), 0o644);
    assert_eq!(parse_permissions("755"), 0o755);
    assert_eq!(parse_permissions("100644"), 0o644);
    assert_eq!(parse_permissions("+700"), 0o700);
    assert_eq!(parse_permissions("drwxr-xr-x"), 0o755);
    assert_eq!(parse_permissions("-rw-r--r--"), 0o644);
    assert_eq!(parse_permissions("rwxr-x---"), 0o750);
    assert_eq!(parse_permissions("rwsr-sr-t"), 0o755);
    assert_eq!(parse_permissions("-rwSr--r--"), 0o644);
    assert_eq!(parse_permissions("rw-r--r--extra"), 0o644);
    assert_eq!(parse_permissions("abc"), 0o644);
    assert_eq!(parse_permissions("99"), 0o644);
}

#[test]
fn octal_entry() {
    assert_eq!(parse_octal("755"), Some(0o755));
    assert_eq!(parse_octal("8"), None);
    assert_eq!(parse_octal(""), None);
    assert_eq!(mode_text(0o755), "755");
    assert_eq!(mode_text(0), "0");
    assert_eq!(chmod_result(true, "700", true), Some(ChmodResult { mode: 0o700, recursive: true }));
    assert_eq!(chmod_result(false, "700", true), None);
    assert_eq!(chmod_result(true, "x", false), None);
}

#[test]
fn check_boxes() {
    let c = checks_for_mode(0o751);
    assert_eq!(c, vec![true, true, true, true, false, true, false, false, true]);
    assert_eq!(mode_from_checks(&c), 0o751);
    assert_eq!(mode_from_checks(&checks_for_mode(0o4755)), 0o755);
    assert_eq!(checks_for_entry("644"), Some(checks_for_mode(0o644)));
    assert_eq!(checks_for_entry("7777"), Some(vec![true; 9]));
    assert_eq!(checks_for_entry("10000"), None);
    assert_eq!(checks_for_entry("9"), None);
    for m in [0u32, 0o644, 0o755, 0o777, 0o1777] {
        assert_eq!(parse_permissions(&mode_text(m)), m & 0o7777);
    }
}

fn facts(action: ConflictAction) -> ConflictFacts {
    ConflictFacts {
        action,
        source_size: 10,
        source_modified: Some(5),
        dest_size: 10,
        dest_modified: Some(7),
    }
}

#[test]
fn target_without_conflict_is_unchanged() {
    match transfer_target(TransferDirection::Upload, "/l/a.txt", "/r/a.txt", None) {
        TransferTarget::Go { local_path, remote_path } => {
            assert_eq!(local_path, "/l/a.txt");
            assert_eq!(remote_path, "/r/a.txt");
        }
        other => panic!("unexpected {:?}", other),
    }
}

#[test]
fn target_renames_the_destination_only() {
    match transfer_target(
        TransferDirection::Upload,
        "/l/a.txt",
        "/r/a.txt",
        Some(facts(ConflictAction::Rename)),
    ) {
        TransferTarget::Go { local_path, remote_path } => {
            assert_eq!(local_path, "/l/a.txt");
            assert_eq!(remote_path, "/r/a (1).txt");
        }
        other => panic!("unexpected {:?}", other),
    }
    match transfer_target(
        TransferDirection::Download,
        "/l/a.txt",
        "/r/a.txt",
        Some(facts(ConflictAction::Rename)),
    ) {
        TransferTarget::Go { local_path, remote_path } => {
            assert_eq!(local_path, "/l/a (1).txt");
            assert_eq!(remote_path, "/r/a.txt");
        }
        other => panic!("unexpected {:?}", other),
    }
}

#[test]
fn target_skips_when_the_action_says_so() {
    for action in [
        ConflictAction::Skip,
        ConflictAction::OverwriteIfSizeDiffers,
        ConflictAction::OverwriteIfNewer,
    ] {
        assert!(matches!(
            transfer_target(TransferDirection::Download, "/l/a", "/r/a", Some(facts(action))),
            TransferTarget::Skip
        ));
    }
    assert!(matches!(
        transfer_target(
            TransferDirection::Download,
            "/l/a",
            "/r/a",
            Some(facts(ConflictAction::Overwrite))
        ),
        TransferTarget::Go { .. }
    ));
}
