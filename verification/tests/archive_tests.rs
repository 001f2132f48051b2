use zephir::archive::{
    plan_entry, plan_extraction, sanitize_entry_path, ArchiveEntry, ArchiveError, EntryAction,
    EntryKind, ErrorClass,
};

fn entry(path: &str, kind: EntryKind, mode: Option<u32>) -> ArchiveEntry {
    ArchiveEntry { path: path.to_string(), kind, mode }
}

#[test]
fn sanitize_accepts_plain_relative_paths() {
    assert_eq!(sanitize_entry_path("a/b", "dest"), Ok("dest/a/b".to_string()));
    assert_eq!(sanitize_entry_path("entry.sh", "dest/"), Ok("dest/entry.sh".to_string()));
}

#[test]
fn sanitize_skips_current_and_empty_components() {
    assert_eq!(sanitize_entry_path("a/./b//c", "dest"), Ok("dest/a/b/c".to_string()));
    assert_eq!(sanitize_entry_path("./x", "dest"), Ok("dest/x".to_string()));
}

#[test]
fn sanitize_rejects_parent_components() {
    assert_eq!(sanitize_entry_path("../etc/passwd", "dest"), Err(ArchiveError::ParentComponent));
    assert_eq!(sanitize_entry_path("a/../b", "dest"), Err(ArchiveError::ParentComponent));
}

#[test]
fn sanitize_rejects_absolute_paths() {
    assert_eq!(sanitize_entry_path("/etc/passwd", "dest"), Err(ArchiveError::AbsolutePath));
    assert_eq!(sanitize_entry_path("/", "dest"), Err(ArchiveError::AbsolutePath));
}

#[test]
fn sanitized_paths_stay_under_destination() {
    for raw in ["a", "a/b", "./a", "a//b", "deep/er/still"] {
        let safe = sanitize_entry_path(raw, "sandbox/17").expect("accepted");
        assert!(safe.starts_with("sandbox/17"));
    }
}

#[test]
fn error_classes_follow_the_design() {
    assert_eq!(ArchiveError::AbsolutePath.class(), ErrorClass::InvalidInput);
    assert_eq!(ArchiveError::ParentComponent.class(), ErrorClass::InvalidInput);
    assert_eq!(ArchiveError::EscapesSandbox.class(), ErrorClass::PermissionDenied);
    assert_eq!(ArchiveError::SymlinkEntry.class(), ErrorClass::Other);
}

#[test]
fn error_messages_are_exact() {
    assert_eq!(ArchiveError::AbsolutePath.message(), "Absolute paths not allowed");
    assert_eq!(ArchiveError::ParentComponent.message(), "Parent components not allowed");
    assert_eq!(ArchiveError::EscapesSandbox.message(), "Path escapes sandbox");
    assert_eq!(ArchiveError::SymlinkEntry.message(), "Symlinks not allowed in archive");
}

#[test]
fn symlink_entry_is_rejected() {
    assert_eq!(
        plan_entry("link", EntryKind::Symlink, None, "dest"),
        Err(ArchiveError::SymlinkEntry)
    );
}

#[test]
fn symlink_anywhere_fails_extraction() {
    let entries = vec![
        entry("a", EntryKind::Directory, None),
        entry("a/f.txt", EntryKind::File, Some(0o644)),
        entry("a/link", EntryKind::Symlink, None),
        entry("a/late.txt", EntryKind::File, Some(0o644)),
    ];
    assert_eq!(plan_extraction(&entries, "dest"), Err(ArchiveError::SymlinkEntry));
}

#[test]
fn first_rejected_entry_reports_its_own_error() {
    let entries = vec![
        entry("ok.txt", EntryKind::File, None),
        entry("../escape", EntryKind::File, None),
        entry("link", EntryKind::Symlink, None),
    ];
    assert_eq!(plan_extraction(&entries, "dest"), Err(ArchiveError::ParentComponent));
}

#[test]
fn single_empty_directory_extracts_to_a_directory() {
    let entries = vec![entry("sub", EntryKind::Directory, None)];
    let acts = plan_extraction(&entries, "dest").expect("plan succeeds");
    assert_eq!(acts.len(), 1);
    match &acts[0] {
        EntryAction::MakeDir { path } => assert_eq!(path, "dest/sub"),
        other => panic!("expected a directory action, got {:?}", other),
    }
}

#[test]
fn file_mode_is_carried_through() {
    let r = plan_entry("secret.txt", EntryKind::File, Some(0o400), "dest").expect("accepted");
    match r {
        EntryAction::WriteFile { path, mode } => {
            assert_eq!(path, "dest/secret.txt");
            assert_eq!(mode, Some(0o400));
        },
        other => panic!("expected a file action, got {:?}", other),
    }
}

#[test]
fn packaged_tree_extracts_to_the_same_tree() {
    let entries = vec![
        entry("entry.sh", EntryKind::File, Some(0o755)),
        entry("data", EntryKind::Directory, None),
        entry("data/x.txt", EntryKind::File, Some(0o644)),
    ];
    let acts = plan_extraction(&entries, "out").expect("plan succeeds");
    assert_eq!(acts.len(), 3);
    match &acts[0] {
        EntryAction::WriteFile { path, mode } => {
            assert_eq!(path, "out/entry.sh");
            assert_eq!(*mode, Some(0o755));
        },
        other => panic!("expected a file action, got {:?}", other),
    }
    match &acts[1] {
        EntryAction::MakeDir { path } => assert_eq!(path, "out/data"),
        other => panic!("expected a directory action, got {:?}", other),
    }
    match &acts[2] {
        EntryAction::WriteFile { path, mode } => {
            assert_eq!(path, "out/data/x.txt");
            assert_eq!(*mode, Some(0o644));
        },
        other => panic!("expected a file action, got {:?}", other),
    }
}

#[test]
fn pack_entry_path_relativises_against_the_root() {
    assert_eq!(zephir::archive::pack_entry_path("hello/entry.sh", "hello"), Some("entry.sh".to_string()));
    assert_eq!(zephir::archive::pack_entry_path("hello/data/x.txt", "hello/"), Some("data/x.txt".to_string()));
    assert_eq!(zephir::archive::pack_entry_path("hello", "hello"), None);
}
