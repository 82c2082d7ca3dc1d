//! The incremental re-scan filter: which discovered files still need
//! (re)indexing, given the set of files the persisted library already
//! knows by (path, size) fingerprint.

use vstd::prelude::*;

use crate::model::{CollectedFile, FileDescriptor};

verus! {

/// The persisted library already holds a file with this fingerprint.
pub open spec fn known_contains(known: Seq<FileDescriptor>, d: FileDescriptor) -> bool {
    exists|i: int| 0 <= i < known.len() && known[i].same_fingerprint(d)
}

/// The discovered files whose fingerprint the persisted library does not
/// hold, in discovery order.
pub open spec fn unknown_files(
    files: Seq<CollectedFile>,
    known: Seq<FileDescriptor>,
) -> Seq<CollectedFile>
    decreases files.len(),
{
    if files.len() == 0 {
        Seq::empty()
    } else if known_contains(known, files[0].descriptor) {
        unknown_files(files.drop_first(), known)
    } else {
        seq![files[0]] + unknown_files(files.drop_first(), known)
    }
}

/// The set of files one scan works on: everything discovered when the
/// caller forces a full rescan, and otherwise exactly the files the
/// persisted library does not know.
pub open spec fn work_set(
    files: Seq<CollectedFile>,
    known: Seq<FileDescriptor>,
    force: bool,
) -> Seq<CollectedFile> {
    if force {
        files
    } else {
        unknown_files(files, known)
    }
}

/// After a full scan with no filesystem changes every discovered file is
/// known, and a scan that does not force a rescan has nothing to do.
pub proof fn lemma_rescan_empty(files: Seq<CollectedFile>, known: Seq<FileDescriptor>)
    requires
        forall|i: int| 0 <= i < files.len() ==> known_contains(known, #[trigger] files[i].descriptor),
    ensures
        work_set(files, known, false) == Seq::<CollectedFile>::empty(),
    decreases files.len(),
{
    if files.len() > 0 {
        assert(known_contains(known, files[0].descriptor));
        assert(forall|i: int|
            0 <= i < files.drop_first().len() ==> known_contains(
                known,
                #[trigger] files.drop_first()[i].descriptor,
            ));
        lemma_rescan_empty(files.drop_first(), known);
    }
}

/// Under a non-forced scan, a file the persisted library already holds
/// with an unchanged fingerprint is never resubmitted, and every
/// discovered file it does not hold is submitted.
pub proof fn lemma_unknown_files_exact(files: Seq<CollectedFile>, known: Seq<FileDescriptor>)
    ensures
        forall|i: int|
            0 <= i < unknown_files(files, known).len() ==> !known_contains(
                known,
                #[trigger] unknown_files(files, known)[i].descriptor,
            ),
        forall|i: int|
            0 <= i < files.len() && !known_contains(known, #[trigger] files[i].descriptor)
                ==> unknown_files(files, known).contains(files[i]),
    decreases files.len(),
{
    if files.len() > 0 {
        let rest = files.drop_first();
        lemma_unknown_files_exact(rest, known);
        assert forall|i: int|
            0 <= i < files.len() && !known_contains(known, #[trigger] files[i].descriptor)
                implies unknown_files(files, known).contains(files[i]) by {
            if i == 0 {
                assert(unknown_files(files, known)[0] == files[0]);
            } else {
                assert(rest[i - 1] == files[i]);
                assert(unknown_files(rest, known).contains(rest[i - 1]));
                let j = choose|j: int|
                    0 <= j < unknown_files(rest, known).len() && unknown_files(rest, known)[j]
                        == rest[i - 1];
                if known_contains(known, files[0].descriptor) {
                    assert(unknown_files(files, known)[j] == rest[i - 1]);
                } else {
                    assert(unknown_files(files, known)[j + 1] == rest[i - 1]);
                }
            }
        }
    }
}

/// A forced scan works on every discovered file, whatever the library
/// already knows.
pub proof fn lemma_forced_scans_all(
    files: Seq<CollectedFile>,
    known: Seq<FileDescriptor>,
)
    ensures
        work_set(files, known, true) == files,
{
}

/// True when the persisted library holds a file with `d`'s fingerprint.
pub fn is_known(known: &Vec<FileDescriptor>, d: &FileDescriptor) -> (r: bool)
    ensures
        r == known_contains(known@, *d),
{
    let mut i: usize = 0;
    while i < known.len()
        invariant
            0 <= i <= known@.len(),
            forall|k: int| 0 <= k < i ==> !known@[k].same_fingerprint(*d),
        decreases known@.len() - i,
    {
        let entry = &known[i];
        if entry.size == d.size && entry.path == d.path {
            return true;
        }
        i += 1;
    }
    false
}

/// Filters the discovered files down to those the persisted library does
/// not know. The input list is consumed; relative order is kept.
pub fn files_not_in_db(
    files: Vec<CollectedFile>,
    known: &Vec<FileDescriptor>,
) -> (r: Vec<CollectedFile>)
    ensures
        r@ == unknown_files(files@, known@),
{
    let ghost orig = files@;
    let mut rest = files;
    let mut r: Vec<CollectedFile> = Vec::new();
    proof {
        assert(r@ + unknown_files(rest@, known@) =~= unknown_files(orig, known@));
    }
    while rest.len() > 0
        invariant
            unknown_files(orig, known@) =~= r@ + unknown_files(rest@, known@),
        decreases rest@.len(),
    {
        let ghost rest0 = rest@;
        let head = rest.remove(0);
        proof {
            assert(rest@ =~= rest0.drop_first());
        }
        if is_known(known, &head.descriptor) {
            proof {
                assert(unknown_files(rest0, known@) == unknown_files(rest@, known@));
                assert(unknown_files(orig, known@) =~= r@ + unknown_files(rest@, known@));
            }
        } else {
            let ghost r0 = r@;
            r.push(head);
            proof {
                assert(unknown_files(rest0, known@) =~= seq![rest0[0]] + unknown_files(
                    rest@,
                    known@,
                ));
                assert(r@ =~= r0.push(rest0[0]));
                assert(unknown_files(orig, known@) =~= r@ + unknown_files(rest@, known@));
            }
        }
    }
    proof {
        assert(unknown_files(rest@, known@) =~= Seq::<CollectedFile>::empty());
        assert(r@ =~= unknown_files(orig, known@));
    }
    r
}

} // verus!
