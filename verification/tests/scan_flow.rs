//! End-to-end scan behaviour: incremental re-scan, forced rescan, fail
//! fast on setup errors, and one reported outcome per submitted job.

use std::sync::mpsc::channel;

use file_scanner::model::{
    CollectedFile, DirectoryListing, ExtractionError, FileDescriptor, ScanError, ScanJob,
};
use file_scanner::scanner::{plan_scan, run_jobs_local, SongScanner};

/// A well-formed tag block.
fn tag_bytes(title: &str, duration: u32, artist: &str) -> Vec<u8> {
    let mut v = Vec::new();
    v.extend_from_slice(b"MTAG");
    v.extend_from_slice(&(title.len() as u16).to_be_bytes());
    v.extend_from_slice(title.as_bytes());
    v.extend_from_slice(&duration.to_be_bytes());
    v.extend_from_slice(&(artist.len() as u16).to_be_bytes());
    v.extend_from_slice(artist.as_bytes());
    v.push(0);
    v
}

fn collected(path: &str, data: Vec<u8>) -> CollectedFile {
    CollectedFile {
        descriptor: FileDescriptor { path: path.to_string(), size: data.len() as u64 },
        contents: Some(data),
    }
}

fn scanner() -> SongScanner {
    SongScanner::new(
        "root".to_string(),
        threadpool::ThreadPool::new(4),
        "thumbs".to_string(),
        "; ".to_string(),
    )
}

fn four_files() -> Vec<CollectedFile> {
    vec![
        collected("root/a.mtag", tag_bytes("A", 1, "x")),
        collected("root/b.mtag", tag_bytes("B", 2, "y")),
        collected("root/c.mtag", tag_bytes("C", 3, "z")),
        collected("root/zero.mtag", Vec::new()),
    ]
}

#[test]
fn scan_reports_every_file_exactly_once() {
    let no_known: Vec<FileDescriptor> = Vec::new();
    let (tx, rx) = channel();
    let report = scanner()
        .start(DirectoryListing::Files(four_files()), &no_known, tx, true, false)
        .unwrap();
    assert_eq!(report.total_jobs_submitted, 4);
    let outcomes: Vec<_> = rx.iter().collect();
    assert_eq!(outcomes.len(), 4);
    let successes = outcomes.iter().filter(|(_, o)| o.is_ok()).count();
    assert_eq!(successes, 3);
    for (group, outcome) in &outcomes {
        assert!(group.is_none());
        if let Err(e) = outcome {
            assert!(matches!(
                e,
                ExtractionError::UnsupportedFormat | ExtractionError::CorruptFile
            ));
        }
    }
}

#[test]
fn rescan_with_unchanged_library_submits_zero_jobs() {
    let known: Vec<FileDescriptor> = four_files()
        .into_iter()
        .map(|c| c.descriptor)
        .collect();
    let (tx, rx) = channel();
    let report = scanner()
        .start(DirectoryListing::Files(four_files()), &known, tx, true, false)
        .unwrap();
    assert_eq!(report.total_jobs_submitted, 0);
    assert_eq!(rx.iter().count(), 0);
}

#[test]
fn changed_size_counts_as_new_file() {
    let mut known: Vec<FileDescriptor> = four_files()
        .into_iter()
        .map(|c| c.descriptor)
        .collect();
    known[0].size += 1;
    let (tx, rx) = channel();
    let report = scanner()
        .start(DirectoryListing::Files(four_files()), &known, tx, true, false)
        .unwrap();
    assert_eq!(report.total_jobs_submitted, 1);
    assert_eq!(rx.iter().count(), 1);
}

#[test]
fn forced_scan_submits_every_discovered_file() {
    let known: Vec<FileDescriptor> = four_files()
        .into_iter()
        .map(|c| c.descriptor)
        .collect();
    let (tx, rx) = channel();
    let report = scanner()
        .start(DirectoryListing::Files(four_files()), &known, tx, true, true)
        .unwrap();
    assert_eq!(report.total_jobs_submitted, 4);
    assert_eq!(rx.iter().count(), 4);
}

#[test]
fn unusable_thumbnail_directory_fails_before_any_submission() {
    let no_known: Vec<FileDescriptor> = Vec::new();
    let (tx, rx) = channel();
    let err = scanner()
        .start(DirectoryListing::Files(four_files()), &no_known, tx, false, false)
        .unwrap_err();
    assert_eq!(err, ScanError::DirectorySetupError);
    assert_eq!(rx.iter().count(), 0);
}

#[test]
fn unreadable_root_fails_the_scan() {
    let no_known: Vec<FileDescriptor> = Vec::new();
    let (tx, rx) = channel();
    let err = scanner()
        .start(DirectoryListing::Unreadable, &no_known, tx, true, false)
        .unwrap_err();
    assert_eq!(err, ScanError::DirectoryUnreadable);
    assert_eq!(rx.iter().count(), 0);
}

#[test]
fn plan_keeps_only_unknown_files_in_order() {
    let files = four_files();
    let known = vec![FileDescriptor {
        path: "root/b.mtag".to_string(),
        size: files[1].descriptor.size,
    }];
    let work = plan_scan(true, DirectoryListing::Files(files), &known, false).unwrap();
    let paths: Vec<&str> = work.iter().map(|c| c.descriptor.path.as_str()).collect();
    assert_eq!(paths, vec!["root/a.mtag", "root/c.mtag", "root/zero.mtag"]);
}

#[test]
fn group_id_rides_along_with_the_outcome() {
    let (tx, rx) = channel();
    let s = scanner();
    let data = tag_bytes("G", 4, "w");
    s.scan_in_pool(
        tx,
        data.len() as u64,
        "root/g.mtag".to_string(),
        Some(data),
        Some("playlist-7".to_string()),
    );
    let outcomes: Vec<_> = rx.iter().collect();
    assert_eq!(outcomes.len(), 1);
    assert_eq!(outcomes[0].0.as_deref(), Some("playlist-7"));
    assert!(outcomes[0].1.is_ok());
}

#[test]
fn synchronous_pipeline_reports_one_outcome_per_planned_file() {
    let no_known: Vec<FileDescriptor> = Vec::new();
    let work = plan_scan(true, DirectoryListing::Files(four_files()), &no_known, false).unwrap();
    let jobs = file_scanner::scanner::jobs_of_work(work);
    assert_eq!(jobs.len(), 4);
    let outcomes = run_jobs_local(&jobs, &"thumbs".to_string(), &"; ".to_string());
    assert_eq!(outcomes.len(), 4);
    assert_eq!(outcomes.iter().filter(|(_, o)| o.is_ok()).count(), 3);
}

#[test]
fn local_runner_yields_one_outcome_per_job_in_order() {
    let jobs = vec![
        ScanJob {
            path: "root/a.mtag".to_string(),
            size: 9,
            group_id: None,
            contents: Some(tag_bytes("A", 1, "x")),
        },
        ScanJob {
            path: "root/bad.mtag".to_string(),
            size: 2,
            group_id: Some("g".to_string()),
            contents: Some(vec![0, 1]),
        },
    ];
    let outcomes = run_jobs_local(&jobs, &"thumbs".to_string(), &"; ".to_string());
    assert_eq!(outcomes.len(), 2);
    assert!(outcomes[0].1.is_ok());
    assert_eq!(outcomes[0].1.as_ref().unwrap().title, "A");
    assert_eq!(outcomes[1].0.as_deref(), Some("g"));
    assert_eq!(
        outcomes[1].1.as_ref().unwrap_err(),
        &ExtractionError::UnsupportedFormat
    );
}
