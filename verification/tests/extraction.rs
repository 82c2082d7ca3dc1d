//! Extraction behaviour on concrete tag blocks: the two-tier strategy,
//! artist splitting, thumbnail naming, and the error taxonomy.

use file_scanner::extractor::{apply_thumbnail_write, extract_with_fallback, scan_file,
    thumbnail_destination};
use file_scanner::model::ExtractionError;
use file_scanner::model::ScanJob;
use file_scanner::scanner::job_outcome;

/// A well-formed tag block, optionally preceded by junk bytes.
fn tag_bytes(title: &str, duration: u32, artist: &str, art: Option<&[u8]>) -> Vec<u8> {
    let mut v = Vec::new();
    v.extend_from_slice(b"MTAG");
    v.extend_from_slice(&(title.len() as u16).to_be_bytes());
    v.extend_from_slice(title.as_bytes());
    v.extend_from_slice(&duration.to_be_bytes());
    v.extend_from_slice(&(artist.len() as u16).to_be_bytes());
    v.extend_from_slice(artist.as_bytes());
    match art {
        None => v.push(0),
        Some(a) => {
            v.push(1);
            v.extend_from_slice(&(a.len() as u32).to_be_bytes());
            v.extend_from_slice(a);
        },
    }
    v
}

fn extract(data: Vec<u8>, artist_split: &str) -> Result<file_scanner::model::ExtractedSong, ExtractionError> {
    extract_with_fallback(
        &"root/song.mtag".to_string(),
        &"thumbs".to_string(),
        data.len() as u64,
        &Some(data),
        &artist_split.to_string(),
    )
}

#[test]
fn fast_extraction_reads_fields_exactly() {
    let song = extract(tag_bytes("Hello", 258, "Solo", None), "; ").unwrap();
    assert_eq!(song.title, "Hello");
    assert_eq!(song.duration, 258);
    assert_eq!(song.artists, vec!["Solo".to_string()]);
    assert!(song.thumbnail.is_none());
    assert!(song.art.is_none());
    assert!(!song.forced);
    assert_eq!(song.path, "root/song.mtag");
}

#[test]
fn artist_value_with_delimiter_yields_three_artists_in_order() {
    let song = extract(tag_bytes("T", 1, "A; B; C", None), "; ").unwrap();
    assert_eq!(
        song.artists,
        vec!["A".to_string(), "B".to_string(), "C".to_string()]
    );
}

#[test]
fn artist_value_without_delimiter_yields_one_artist() {
    let song = extract(tag_bytes("T", 1, "A", None), "; ").unwrap();
    assert_eq!(song.artists, vec!["A".to_string()]);
}

#[test]
fn fast_failure_with_forced_success_sets_provenance_flag() {
    let mut data = vec![0u8, 1, 2, 3];
    data.extend_from_slice(&tag_bytes("Buried", 7, "X", None));
    let song = extract(data, "; ").unwrap();
    assert!(song.forced);
    assert_eq!(song.title, "Buried");
    assert_eq!(song.duration, 7);
}

#[test]
fn fast_success_clears_provenance_flag() {
    let song = extract(tag_bytes("Front", 9, "X", None), "; ").unwrap();
    assert!(!song.forced);
}

#[test]
fn stream_without_tag_is_unsupported() {
    let err = extract(vec![9u8; 64], "; ").unwrap_err();
    assert_eq!(err, ExtractionError::UnsupportedFormat);
}

#[test]
fn zero_byte_file_fails_both_passes() {
    let err = extract(Vec::new(), "; ").unwrap_err();
    assert_eq!(err, ExtractionError::UnsupportedFormat);
}

#[test]
fn truncated_tag_is_corrupt() {
    let mut data = tag_bytes("Hello", 258, "Solo", None);
    data.truncate(8);
    let err = extract(data, "; ").unwrap_err();
    assert_eq!(err, ExtractionError::CorruptFile);
}

#[test]
fn unreadable_file_reports_io_error() {
    let job = ScanJob {
        path: "root/gone.mtag".to_string(),
        size: 5,
        group_id: None,
        contents: None,
    };
    let (group, outcome) = job_outcome(&job, &"thumbs".to_string(), &"; ".to_string());
    assert!(group.is_none());
    assert_eq!(outcome.unwrap_err(), ExtractionError::IOError);
}

#[test]
fn embedded_art_derives_stable_thumbnail_destination() {
    let song = extract(tag_bytes("T", 1, "A", Some(&[1, 2, 3])), "; ").unwrap();
    assert_eq!(song.thumbnail.as_deref(), Some("thumbs/root_2fsong_2emtag.png"));
    assert_eq!(song.art, Some(vec![1u8, 2, 3]));
    let again = thumbnail_destination(&"thumbs".to_string(), &"root/song.mtag".to_string());
    assert_eq!(Some(again.as_str()), song.thumbnail.as_deref());
}

#[test]
fn distinct_paths_get_distinct_thumbnail_destinations() {
    let thumbs = "t".to_string();
    let a = thumbnail_destination(&thumbs, &"a/b".to_string());
    let b = thumbnail_destination(&thumbs, &"a_b".to_string());
    let c = thumbnail_destination(&thumbs, &"a.b".to_string());
    assert_eq!(a, "t/a_2fb.png");
    assert_eq!(b, "t/a_5fb.png");
    assert_eq!(c, "t/a_2eb.png");
    assert_ne!(a, b);
    assert_ne!(a, c);
    assert_ne!(b, c);
}

#[test]
fn failed_art_write_becomes_thumbnail_error() {
    let song = extract(tag_bytes("T", 1, "A", Some(&[4, 5])), "; ").unwrap();
    let folded = apply_thumbnail_write(Ok(song), false);
    assert_eq!(folded.unwrap_err(), ExtractionError::ThumbnailWriteError);
}

#[test]
fn successful_art_write_keeps_outcome() {
    let song = extract(tag_bytes("T", 1, "A", Some(&[4, 5])), "; ").unwrap();
    let folded = apply_thumbnail_write(Ok(song), true);
    assert!(folded.is_ok());
}

#[test]
fn art_write_failure_without_art_is_harmless() {
    let song = extract(tag_bytes("T", 1, "A", None), "; ").unwrap();
    let folded = apply_thumbnail_write(Ok(song), false);
    assert!(folded.is_ok());
}

#[test]
fn empty_artist_tag_yields_one_empty_artist() {
    let song = extract(tag_bytes("T", 1, "", None), "; ").unwrap();
    assert_eq!(song.artists, vec!["".to_string()]);
}

#[test]
fn duration_is_read_big_endian() {
    let song = extract(tag_bytes("T", 0x01020304, "A", None), "; ").unwrap();
    assert_eq!(song.duration, 16_909_060);
}

#[test]
fn corrupt_block_after_junk_fails_as_corrupt() {
    let mut data = vec![1u8, 2, 3];
    let mut tag = tag_bytes("Deep", 1, "A", None);
    tag.truncate(7);
    data.extend_from_slice(&tag);
    let err = extract(data, "; ").unwrap_err();
    assert_eq!(err, ExtractionError::CorruptFile);
}

#[test]
fn unknown_art_flag_is_corrupt() {
    let mut data = tag_bytes("T", 1, "A", None);
    let last = data.len() - 1;
    data[last] = 2;
    let err = extract(data, "; ").unwrap_err();
    assert_eq!(err, ExtractionError::CorruptFile);
}

#[test]
fn forced_pass_alone_behaves_like_fast_on_clean_files() {
    let data = tag_bytes("Same", 3, "A", None);
    let fast = scan_file(
        &"p".to_string(),
        &"t".to_string(),
        1,
        &data,
        false,
        &"; ".to_string(),
    )
    .unwrap();
    let forced = scan_file(
        &"p".to_string(),
        &"t".to_string(),
        1,
        &data,
        true,
        &"; ".to_string(),
    )
    .unwrap();
    assert_eq!(fast.title, forced.title);
    assert_eq!(fast.duration, forced.duration);
    assert_eq!(fast.artists, forced.artists);
    assert!(!fast.forced);
    assert!(forced.forced);
}
