//! The scan coordinator: validates preconditions, computes the work set,
//! submits one extraction job per file to the worker pool, and returns
//! the submission count without waiting for the jobs.
//!
//! Each job runs on a pool worker and publishes exactly one message on
//! the result channel. The coordinator's own sending handle is released
//! when `start` returns, so the channel closes once every submitted job
//! has reported — the consumer drains until the channel reports closed.

use std::sync::mpsc::Sender;
use threadpool::ThreadPool;
use vstd::prelude::*;
use vstd::utf8::encode_utf8;

use crate::differ::{files_not_in_db, work_set};
use crate::extractor::{extract_with_fallback, two_tier_model};
use crate::model::{
    CollectedFile, DirectoryListing, ExtractionError, FileDescriptor, ScanError, ScanJob,
    ScanMessage, ScanReport, SongModel,
};

verus! {

/// Declares `threadpool::ThreadPool`, the bounded worker pool the
/// extraction jobs run on; the scanner holds it as an opaque value.
#[verifier::external_type_specification]
#[verifier::external_body]
pub struct ExThreadPool(ThreadPool);

/// Declares `std::sync::mpsc::Sender`, the sending half of the result
/// channel; the scanner holds and clones it as an opaque value.
#[verifier::external_type_specification]
#[verifier::external_body]
#[verifier::reject_recursive_types(T)]
pub struct ExSender<T>(Sender<T>);

/// Relies on `std::sync::mpsc::Sender::clone`: a clone is another
/// sending handle on the same channel.
pub assume_specification<T>[ <Sender<T> as Clone>::clone ](tx: &Sender<T>) -> Sender<T>;

/// Relies on `std::sync::mpsc::Sender::send`: the message is delivered
/// to the receiver unless the receiver has already disconnected, in
/// which case the consumer is gone and the message is dropped.
#[verifier::external_body]
fn send_message(tx: &Sender<ScanMessage>, m: ScanMessage) -> (delivered: bool) {
    tx.send(m).is_ok()
}

/// Relies on `threadpool::ThreadPool::execute`: the queued closure is
/// run to completion exactly once, by one of the pool's worker threads,
/// without blocking the submitter.
#[verifier::external_body]
fn pool_execute(
    pool: &ThreadPool,
    tx: Sender<ScanMessage>,
    job: ScanJob,
    thumbnail_dir: String,
    artist_split: String,
) {
    pool.execute(move || run_job(&tx, job, &thumbnail_dir, &artist_split));
}

/// The contents a job carries, at the specification level.
pub open spec fn job_contents(job: ScanJob) -> Option<Seq<u8>> {
    match job.contents {
        Some(d) => Some(d@),
        None => None,
    }
}

/// The outcome owed for one job: the two-tier extraction verdict on the
/// job's file.
pub open spec fn outcome_model(
    job: ScanJob,
    dir: Seq<char>,
    delim: Seq<u8>,
) -> Result<SongModel, ExtractionError> {
    two_tier_model(job.path@, dir, job.size, job_contents(job), delim)
}

/// Computes the single message owed for one job: the job's group tag
/// paired with its two-tier extraction outcome.
pub fn job_outcome(job: &ScanJob, thumbnail_dir: &String, artist_split: &String) -> (m:
    ScanMessage)
    ensures
        m.0 == job.group_id,
        ({
            let model = outcome_model(*job, thumbnail_dir@, encode_utf8(artist_split@));
            &&& (m.1 is Ok <==> model is Ok)
            &&& (m.1 matches Ok(s) ==> s@ == model->Ok_0)
            &&& (m.1 matches Err(e) ==> e == model->Err_0)
        }),
{
    let outcome = extract_with_fallback(
        &job.path,
        thumbnail_dir,
        job.size,
        &job.contents,
        artist_split,
    );
    let group = match &job.group_id {
        Some(g) => Some(g.clone()),
        None => None,
    };
    (group, outcome)
}

/// Runs one job on a worker: computes its one outcome and publishes it.
/// A send that fails means the consumer has stopped listening; the
/// worker carries on rather than failing.
pub fn run_job(tx: &Sender<ScanMessage>, job: ScanJob, thumbnail_dir: &String, artist_split: &String) {
    let msg = job_outcome(&job, thumbnail_dir, artist_split);
    let _delivered = send_message(tx, msg);
}

/// Runs a batch of jobs in the calling thread: every job yields exactly
/// one outcome, in submission order — none is lost, none is duplicated.
pub fn run_jobs_local(jobs: &Vec<ScanJob>, thumbnail_dir: &String, artist_split: &String) -> (outcomes: Vec<ScanMessage>)
    ensures
        outcomes@.len() == jobs@.len(),
        forall|i: int|
            0 <= i < jobs@.len() ==> {
                let m = #[trigger] outcomes@[i];
                let model = outcome_model(jobs@[i], thumbnail_dir@, encode_utf8(artist_split@));
                &&& m.0 == jobs@[i].group_id
                &&& (m.1 is Ok <==> model is Ok)
                &&& (m.1 matches Ok(s) ==> s@ == model->Ok_0)
                &&& (m.1 matches Err(e) ==> e == model->Err_0)
            },
{
    let mut outcomes: Vec<ScanMessage> = Vec::new();
    let mut i: usize = 0;
    while i < jobs.len()
        invariant
            0 <= i <= jobs@.len(),
            outcomes@.len() == i,
            forall|k: int|
                0 <= k < i ==> {
                    let m = #[trigger] outcomes@[k];
                    let model = outcome_model(
                        jobs@[k],
                        thumbnail_dir@,
                        encode_utf8(artist_split@),
                    );
                    &&& m.0 == jobs@[k].group_id
                    &&& (m.1 is Ok <==> model is Ok)
                    &&& (m.1 matches Ok(s) ==> s@ == model->Ok_0)
                    &&& (m.1 matches Err(e) ==> e == model->Err_0)
                },
        decreases jobs@.len() - i,
    {
        let m = job_outcome(&jobs[i], thumbnail_dir, artist_split);
        outcomes.push(m);
        i += 1;
    }
    outcomes
}

/// Turns a planned work set into ordinary scan jobs, one per file in
/// order, untagged (a group id is used only by the playlist-import
/// caller, never by a library scan).
pub fn jobs_of_work(work: Vec<CollectedFile>) -> (jobs: Vec<ScanJob>)
    ensures
        jobs@.len() == work@.len(),
        forall|i: int|
            0 <= i < work@.len() ==> {
                let j = #[trigger] jobs@[i];
                &&& j.path == work@[i].descriptor.path
                &&& j.size == work@[i].descriptor.size
                &&& j.group_id is None
                &&& j.contents == work@[i].contents
            },
{
    let ghost orig = work@;
    let mut rest = work;
    let mut jobs: Vec<ScanJob> = Vec::new();
    while rest.len() > 0
        invariant
            jobs@.len() + rest@.len() == orig.len(),
            rest@ == orig.skip(jobs@.len() as int),
            forall|i: int|
                0 <= i < jobs@.len() ==> {
                    let j = #[trigger] jobs@[i];
                    &&& j.path == orig[i].descriptor.path
                    &&& j.size == orig[i].descriptor.size
                    &&& j.group_id is None
                    &&& j.contents == orig[i].contents
                },
        decreases rest@.len(),
    {
        let ghost rest0 = rest@;
        let item = rest.remove(0);
        proof {
            assert(item == orig[jobs@.len() as int]);
            assert(rest@ =~= orig.skip(jobs@.len() + 1 as int));
        }
        jobs.push(
            ScanJob {
                path: item.descriptor.path,
                size: item.descriptor.size,
                group_id: None,
                contents: item.contents,
            },
        );
    }
    jobs
}

/// Decides what one scan invocation works on, before anything runs: a
/// scan whose thumbnail directory is unusable fails before any job
/// exists, an unreadable root fails next, and otherwise the work set is
/// the discovered files filtered by the persisted library (the filter is
/// bypassed on a forced rescan).
pub fn plan_scan(
    thumbnail_dir_ready: bool,
    listing: DirectoryListing,
    known: &Vec<FileDescriptor>,
    force: bool,
) -> (r: Result<Vec<CollectedFile>, ScanError>)
    ensures
        !thumbnail_dir_ready ==> (r matches Err(e) && e == ScanError::DirectorySetupError),
        thumbnail_dir_ready && listing is Unreadable ==> (r matches Err(e) && e
            == ScanError::DirectoryUnreadable),
        thumbnail_dir_ready ==> (listing matches DirectoryListing::Files(files) ==> (r matches Ok(w) && w@
            == work_set(files@, known@, force))),
{
    if !thumbnail_dir_ready {
        return Err(ScanError::DirectorySetupError);
    }
    match listing {
        DirectoryListing::Unreadable => Err(ScanError::DirectoryUnreadable),
        DirectoryListing::Files(files) => {
            if force {
                Ok(files)
            } else {
                Ok(files_not_in_db(files, known))
            }
        },
    }
}

/// Scans a media library: the coordinator and its configuration. The
/// directory walk, the file reads and the thumbnail-directory check
/// happen at the caller's edge; the scanner owns the decisions and the
/// dispatch.
pub struct SongScanner {
    pub dir: String,
    pub pool: ThreadPool,
    pub thumbnail_dir: String,
    pub artist_split: String,
}

impl SongScanner {
    /// A scanner for the library rooted at `dir`, extracting on `pool`'s
    /// workers, writing cover art under `thumbnail_dir`, and splitting
    /// multi-artist tag values on `artist_split`.
    pub fn new(dir: String, pool: ThreadPool, thumbnail_dir: String, artist_split: String) -> (s:
        Self)
        ensures
            s.dir == dir,
            s.pool == pool,
            s.thumbnail_dir == thumbnail_dir,
            s.artist_split == artist_split,
    {
        Self { dir, pool, thumbnail_dir, artist_split }
    }

    /// Submits one extraction job to the worker pool and returns without
    /// waiting: the job will publish exactly one message on `tx`.
    pub fn scan_in_pool(
        &self,
        tx: Sender<ScanMessage>,
        size: u64,
        path: String,
        contents: Option<Vec<u8>>,
        playlist_id: Option<String>,
    ) {
        let job = ScanJob { path, size, group_id: playlist_id, contents };
        pool_execute(
            &self.pool,
            tx,
            job,
            self.thumbnail_dir.clone(),
            self.artist_split.clone(),
        );
    }

    /// Starts one scan: fails fast when the thumbnail directory is
    /// unusable or the root was unreadable — in both cases before any
    /// job is submitted — and otherwise submits one job per work-set
    /// file and returns their count at once, without waiting for any
    /// extraction to finish. Dropping the last sending handle closes the
    /// channel, so the consumer sees it close once every job reported.
    pub fn start(
        &self,
        listing: DirectoryListing,
        known: &Vec<FileDescriptor>,
        tx_song: Sender<ScanMessage>,
        thumbnail_dir_ready: bool,
        force: bool,
    ) -> (r: Result<ScanReport, ScanError>)
        ensures
            !thumbnail_dir_ready ==> (r matches Err(e) && e == ScanError::DirectorySetupError),
            thumbnail_dir_ready && listing is Unreadable ==> (r matches Err(e) && e
                == ScanError::DirectoryUnreadable),
            thumbnail_dir_ready ==> (listing matches DirectoryListing::Files(files) ==> (r matches Ok(rep)
                && rep.total_jobs_submitted == work_set(files@, known@, force).len())),
    {
        let mut work = match plan_scan(thumbnail_dir_ready, listing, known, force) {
            Err(e) => {
                return Err(e);
            },
            Ok(w) => w,
        };
        let total = work.len();
        while work.len() > 0
            decreases work@.len(),
        {
            let item = work.remove(0);
            self.scan_in_pool(
                tx_song.clone(),
                item.descriptor.size,
                item.descriptor.path,
                item.contents,
                None,
            );
        }
        Ok(ScanReport { total_jobs_submitted: total })
    }
}

} // verus!
