//! The directory-walk state machine: traversal decisions, link safety,
//! and partial-failure tolerance.

use file_scanner::collector::{EntryKind, PathCollector, WalkEntry};

fn entry(path: &str, size: u64, kind: EntryKind) -> WalkEntry {
    WalkEntry { path: path.to_string(), size, kind }
}

#[test]
fn walk_records_files_and_queues_subdirectories() {
    let mut c = PathCollector::new("root".to_string());
    assert_eq!(c.take_next().as_deref(), Some("root"));
    c.absorb_entries(vec![
        entry("root/a.mtag", 10, EntryKind::RegularFile),
        entry("root/sub", 0, EntryKind::Directory),
        entry("root/b.mtag", 20, EntryKind::RegularFile),
    ]);
    assert_eq!(c.take_next().as_deref(), Some("root/sub"));
    c.absorb_entries(vec![entry("root/sub/c.mtag", 30, EntryKind::RegularFile)]);
    assert!(c.take_next().is_none());
    assert!(!c.root_failed);
    assert_eq!(c.warnings, 0);
    let paths: Vec<&str> = c.files.iter().map(|d| d.path.as_str()).collect();
    assert_eq!(paths, vec!["root/a.mtag", "root/b.mtag", "root/sub/c.mtag"]);
}

#[test]
fn symbolic_links_are_never_queued_or_recorded() {
    let mut c = PathCollector::new("root".to_string());
    c.take_next();
    c.absorb_entries(vec![
        entry("root/loop", 0, EntryKind::SymbolicLink),
        entry("root/dev", 0, EntryKind::Other),
        entry("root/song.mtag", 5, EntryKind::RegularFile),
    ]);
    assert!(c.take_next().is_none());
    assert_eq!(c.files.len(), 1);
    assert_eq!(c.files[0].path, "root/song.mtag");
    assert_eq!(c.files[0].size, 5);
}

#[test]
fn unreadable_root_is_fatal() {
    let mut c = PathCollector::new("root".to_string());
    c.take_next();
    c.absorb_failure();
    assert!(c.root_failed);
    assert_eq!(c.warnings, 0);
}

#[test]
fn unreadable_subdirectory_is_only_a_warning() {
    let mut c = PathCollector::new("root".to_string());
    c.take_next();
    c.absorb_entries(vec![
        entry("root/ok.mtag", 1, EntryKind::RegularFile),
        entry("root/locked", 0, EntryKind::Directory),
    ]);
    assert_eq!(c.take_next().as_deref(), Some("root/locked"));
    c.absorb_failure();
    assert!(c.take_next().is_none());
    assert!(!c.root_failed);
    assert_eq!(c.warnings, 1);
    assert_eq!(c.files.len(), 1);
}
