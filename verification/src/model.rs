//! Data model of the scanner: what is discovered on disk, what a job
//! carries, what extraction produces, and the error taxonomy.

use vstd::prelude::*;

verus! {

/// A regular file discovered under the scan root, identified for
/// incremental re-scan purposes by its path together with its byte size.
pub struct FileDescriptor {
    pub path: String,
    pub size: u64,
}

impl FileDescriptor {
    /// Two descriptors carry the same fingerprint when both the path and
    /// the recorded size agree; a file whose size has changed since the
    /// last scan is treated as new.
    pub open spec fn same_fingerprint(self, other: FileDescriptor) -> bool {
        self.path@ == other.path@ && self.size == other.size
    }
}

/// A discovered file together with its contents. The directory walk and
/// the reads happen outside this library; a file that could not be read
/// arrives with `contents` absent and is reported as an I/O failure.
pub struct CollectedFile {
    pub descriptor: FileDescriptor,
    pub contents: Option<Vec<u8>>,
}

/// What enumerating the scan root produced: either the full list of
/// regular files beneath it, or the root itself could not be opened.
pub enum DirectoryListing {
    Files(Vec<CollectedFile>),
    Unreadable,
}

/// One unit of work: extract metadata from one file and report exactly
/// one outcome. `group_id` tags the job as part of a logical batch (a
/// playlist import); it is absent for ordinary library scans.
pub struct ScanJob {
    pub path: String,
    pub size: u64,
    pub group_id: Option<String>,
    pub contents: Option<Vec<u8>>,
}

/// The structured outcome of a successful extraction.
#[derive(Debug)]
pub struct ExtractedSong {
    pub path: String,
    pub size: u64,
    pub title: String,
    /// Track duration in whole seconds, as recorded in the tag.
    pub duration: u32,
    /// One or more artist names, in the order they appear in the tag.
    pub artists: Vec<String>,
    /// Destination path for the cover art, present exactly when the tag
    /// embeds art. The bytes in `art` are written there by the consumer.
    pub thumbnail: Option<String>,
    pub art: Option<Vec<u8>>,
    /// True when the fast pass failed and the thorough pass produced
    /// this record.
    pub forced: bool,
}

/// Spec-level shape of an `ExtractedSong`.
#[verifier::ext_equal]
pub struct SongModel {
    pub path: Seq<char>,
    pub size: u64,
    pub title: Seq<char>,
    pub duration: int,
    pub artists: Seq<Seq<char>>,
    pub thumbnail: Option<Seq<char>>,
    pub art: Option<Seq<u8>>,
    pub forced: bool,
}

impl View for ExtractedSong {
    type V = SongModel;

    open spec fn view(&self) -> SongModel {
        SongModel {
            path: self.path@,
            size: self.size,
            title: self.title@,
            duration: self.duration as int,
            artists: self.artists@.map_values(|a: String| a@),
            thumbnail: match self.thumbnail {
                Some(t) => Some(t@),
                None => None,
            },
            art: match self.art {
                Some(a) => Some(a@),
                None => None,
            },
            forced: self.forced,
        }
    }
}

/// Why one file failed to yield a song. Each variant is distinct so the
/// consumer can decide whether to log, skip or quarantine the file.
#[derive(Clone, Copy, Debug, PartialEq, Eq, Structural)]
pub enum ExtractionError {
    /// No tag block was found in the file.
    UnsupportedFormat,
    /// A tag block was found but is truncated or malformed.
    CorruptFile,
    /// The song was extracted but its cover art could not be written.
    ThumbnailWriteError,
    /// The file itself could not be read.
    IOError,
}

/// Why a scan failed before any job was submitted.
#[derive(Clone, Copy, Debug, PartialEq, Eq, Structural)]
pub enum ScanError {
    /// The thumbnail directory is unusable (it could not be created, or
    /// the path collides with an existing regular file).
    DirectorySetupError,
    /// The scan root could not be opened.
    DirectoryUnreadable,
}

/// The outcome of one job: the extracted song, or the typed reason its
/// file yielded none.
pub type ScanOutcome = Result<ExtractedSong, ExtractionError>;

/// The message reported for one job: the job's group tag together with
/// the extraction outcome.
pub type ScanMessage = (Option<String>, ScanOutcome);

/// The synchronous return value of a scan invocation. Extraction runs
/// on after `start` returns; only the submission count is known then.
#[derive(Debug)]
pub struct ScanReport {
    pub total_jobs_submitted: usize,
}

} // verus!
