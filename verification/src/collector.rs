//! The directory walk, as a state machine. Reading a directory is I/O
//! and happens at the caller's edge; the collector owns every decision:
//! which directory to read next, what each entry becomes, and how a
//! failed read is absorbed. Symbolic links are never queued, so a link
//! cycle cannot trap the walk; a subdirectory that cannot be read only
//! counts as a warning, and only a failure on the root — the first read
//! of the walk — is fatal.

use vstd::prelude::*;

use crate::model::FileDescriptor;

verus! {

/// What one directory entry is, as the filesystem reports it.
pub enum EntryKind {
    Directory,
    RegularFile,
    SymbolicLink,
    Other,
}

/// One entry of a directory listing: its path, its byte size, and what
/// kind of object it is.
pub struct WalkEntry {
    pub path: String,
    pub size: u64,
    pub kind: EntryKind,
}

/// The subdirectories among some entries, in listing order: exactly the
/// entries reported as directories. A symbolic link is never included,
/// whatever it points at.
pub open spec fn subdirectories_of(es: Seq<WalkEntry>) -> Seq<String>
    decreases es.len(),
{
    if es.len() == 0 {
        Seq::empty()
    } else if es[0].kind is Directory {
        seq![es[0].path] + subdirectories_of(es.drop_first())
    } else {
        subdirectories_of(es.drop_first())
    }
}

/// The regular files among some entries, as descriptors, in listing
/// order.
pub open spec fn files_of(es: Seq<WalkEntry>) -> Seq<FileDescriptor>
    decreases es.len(),
{
    if es.len() == 0 {
        Seq::empty()
    } else if es[0].kind is RegularFile {
        seq![FileDescriptor { path: es[0].path, size: es[0].size }] + files_of(es.drop_first())
    } else {
        files_of(es.drop_first())
    }
}

/// A directory walk in progress: the directories still to read, the
/// regular files found so far, how many unreadable subdirectories were
/// skipped, and whether the very first read — the root — failed.
pub struct PathCollector {
    pub pending: Vec<String>,
    pub files: Vec<FileDescriptor>,
    pub warnings: u64,
    pub started: bool,
    pub root_failed: bool,
}

impl PathCollector {
    /// A walk of the tree rooted at `root`: the root is the first and,
    /// so far, only directory to read.
    pub fn new(root: String) -> (c: Self)
        ensures
            c.pending@ == seq![root],
            c.files@ == Seq::<FileDescriptor>::empty(),
            c.warnings == 0,
            !c.started,
            !c.root_failed,
    {
        let mut pending: Vec<String> = Vec::new();
        pending.push(root);
        proof {
            assert(pending@ =~= seq![root]);
        }
        PathCollector { pending, files: Vec::new(), warnings: 0, started: false, root_failed: false }
    }

    /// The next directory the caller must read, or nothing when the walk
    /// is complete.
    pub fn take_next(&mut self) -> (r: Option<String>)
        ensures
            match r {
                Some(d) => {
                    &&& old(self).pending@.len() > 0
                    &&& d == old(self).pending@.last()
                    &&& final(self).pending@ == old(self).pending@.drop_last()
                },
                None => {
                    &&& old(self).pending@.len() == 0
                    &&& final(self).pending@ == old(self).pending@
                },
            },
            final(self).files@ == old(self).files@,
            final(self).warnings == old(self).warnings,
            final(self).started == old(self).started,
            final(self).root_failed == old(self).root_failed,
    {
        self.pending.pop()
    }

    /// Absorbs one successfully read directory: its subdirectories are
    /// queued for reading, its regular files are recorded, and links and
    /// other objects are dropped.
    pub fn absorb_entries(&mut self, entries: Vec<WalkEntry>)
        ensures
            final(self).pending@ == old(self).pending@ + subdirectories_of(entries@),
            final(self).files@ == old(self).files@ + files_of(entries@),
            final(self).warnings == old(self).warnings,
            final(self).started,
            final(self).root_failed == old(self).root_failed,
    {
        self.started = true;
        let ghost orig = entries@;
        let ghost pending0 = self.pending@;
        let ghost files0 = self.files@;
        let mut rest = entries;
        proof {
            assert(self.pending@ + subdirectories_of(rest@) =~= pending0 + subdirectories_of(
                orig,
            ));
            assert(self.files@ + files_of(rest@) =~= files0 + files_of(orig));
        }
        while rest.len() > 0
            invariant
                self.pending@ + subdirectories_of(rest@) =~= pending0 + subdirectories_of(orig),
                self.files@ + files_of(rest@) =~= files0 + files_of(orig),
                self.warnings == old(self).warnings,
                self.started,
                self.root_failed == old(self).root_failed,
            decreases rest@.len(),
        {
            let ghost rest0 = rest@;
            let entry = rest.remove(0);
            proof {
                assert(rest@ =~= rest0.drop_first());
            }
            match entry.kind {
                EntryKind::Directory => {
                    let ghost p0 = self.pending@;
                    self.pending.push(entry.path);
                    proof {
                        assert(subdirectories_of(rest0) =~= seq![rest0[0].path]
                            + subdirectories_of(rest@));
                        assert(self.pending@ =~= p0.push(rest0[0].path));
                        assert(self.pending@ + subdirectories_of(rest@) =~= pending0
                            + subdirectories_of(orig));
                    }
                },
                EntryKind::RegularFile => {
                    let ghost f0 = self.files@;
                    self.files.push(FileDescriptor { path: entry.path, size: entry.size });
                    proof {
                        assert(files_of(rest0) =~= seq![
                            FileDescriptor { path: rest0[0].path, size: rest0[0].size },
                        ] + files_of(rest@));
                        assert(self.files@ + files_of(rest@) =~= files0 + files_of(orig));
                    }
                },
                EntryKind::SymbolicLink => {
                    proof {
                        assert(subdirectories_of(rest0) =~= subdirectories_of(rest@));
                        assert(files_of(rest0) =~= files_of(rest@));
                    }
                },
                EntryKind::Other => {
                    proof {
                        assert(subdirectories_of(rest0) =~= subdirectories_of(rest@));
                        assert(files_of(rest0) =~= files_of(rest@));
                    }
                },
            }
        }
        proof {
            assert(subdirectories_of(rest@) =~= Seq::<String>::empty());
            assert(files_of(rest@) =~= Seq::<FileDescriptor>::empty());
            assert(final(self).pending@ =~= pending0 + subdirectories_of(orig));
            assert(final(self).files@ =~= files0 + files_of(orig));
        }
    }

    /// Absorbs one directory that could not be read: fatal when it was
    /// the root — the first read of the walk — and otherwise only a
    /// warning; nothing already found is lost either way.
    pub fn absorb_failure(&mut self)
        ensures
            final(self).pending@ == old(self).pending@,
            final(self).files@ == old(self).files@,
            final(self).started,
            !old(self).started ==> final(self).root_failed && final(self).warnings
                == old(self).warnings,
            old(self).started ==> final(self).root_failed == old(self).root_failed,
            old(self).started ==> final(self).warnings == (if old(self).warnings < u64::MAX {
                old(self).warnings + 1
            } else {
                old(self).warnings as int
            }),
    {
        if !self.started {
            self.started = true;
            self.root_failed = true;
        } else if self.warnings < u64::MAX {
            self.warnings = self.warnings + 1;
        }
    }
}

} // verus!
