//! The tree walk and the per-file decision between hardlinking the previous
//! generation's copy and copying the source anew.
//!
//! The walk itself is a state machine: the caller lists each directory that
//! [`TreeWalk::next_dir`] hands out and feeds every entry to
//! [`TreeWalk::visit`], which prunes excluded names and queues directories.
//! A [`FileHandler`] then says, for each visited entry, which file operation
//! or directory creation the caller is to carry out.
use crate::path::{copy_parts, FsPath};
use crate::time::{diff_secs, spec_diff_secs, FileTime};
use vstd::hash_map::StringHashMap;
use vstd::hash_set::StringHashSet;
use vstd::prelude::*;
use vstd::string::StringExecFns;

verus! {

/// What the walk learnt of a file: its length and its modification time,
/// `None` where the file system could not give one.
#[derive(Clone, Copy, Debug, PartialEq, Eq, Structural)]
pub struct FileMeta {
    pub len: u64,
    pub modified: Option<FileTime>,
}

/// The kind of a directory entry.
#[derive(Clone, Copy, Debug, PartialEq, Eq, Structural)]
pub enum EntryKind {
    Dir,
    File,
    /// Anything else (a symbolic link, a device): the walk passes it by.
    Other,
}

/// What the walk makes of one entry; paths are relative to the walk's root.
#[derive(Debug)]
pub enum Visit {
    Skip,
    Dir(Vec<String>),
    File(Vec<String>),
}

/// The key under which a relative path is recorded: its components joined by `/`.
pub open spec fn path_key(rel: Seq<String>) -> Seq<char>
    decreases rel.len(),
{
    if rel.len() == 0 {
        Seq::empty()
    } else if rel.len() == 1 {
        rel[0]@
    } else {
        path_key(rel.drop_last()) + seq!['/'] + rel.last()@
    }
}

/// Computes [`path_key`] of a relative path.
pub fn key_of(rel: &Vec<String>) -> (r: String)
    ensures
        r@ == path_key(rel@),
{
    let mut r = String::new();
    let mut i: usize = 0;
    while i < rel.len()
        invariant
            i <= rel.len(),
            r@ == path_key(rel@.subrange(0, i as int)),
        decreases rel.len() - i,
    {
        proof {
            reveal_strlit("/");
            assert(rel@.subrange(0, i + 1).drop_last() =~= rel@.subrange(0, i as int));
        }
        if i > 0 {
            r.append("/");
        }
        r.append(rel[i].as_str());
        i = i + 1;
    }
    assert(rel@.subrange(0, rel@.len() as int) =~= rel@);
    r
}

/// No component of `p` is one of the `excluded` names.
pub open spec fn clear_of(excluded: Set<Seq<char>>, p: Seq<String>) -> bool {
    forall|i: int| 0 <= i < p.len() ==> !excluded.contains(#[trigger] p[i]@)
}

/// A depth-first walk in progress: the directories still to be listed, each
/// relative to the root, and the one being listed now.
pub struct TreeWalk {
    excluded: StringHashSet,
    pending: Vec<Vec<String>>,
    current: Vec<String>,
    reached: Ghost<Set<Seq<String>>>,
}

impl TreeWalk {
    /// The names that the walk prunes.
    pub closed spec fn excluded_names(&self) -> Set<Seq<char>> {
        self.excluded@
    }

    /// The directories still to be listed; the last is listed next.
    pub closed spec fn pending(&self) -> Seq<Seq<String>> {
        self.pending@.map_values(|d: Vec<String>| d@)
    }

    /// The directory whose entries are being visited.
    pub closed spec fn current(&self) -> Seq<String> {
        self.current@
    }

    /// The directories presented so far: the root and every directory visit.
    pub closed spec fn reached(&self) -> Set<Seq<String>> {
        self.reached@
    }

    /// Every directory that the walk lists, or will list, has been presented
    /// and avoids the excluded names; the parent of every presented directory
    /// was presented too.
    pub open spec fn wf(&self) -> bool {
        &&& clear_of(self.excluded_names(), self.current())
        &&& forall|d: Seq<String>|
            #[trigger] self.reached().contains(d) && d.len() > 0 ==> self.reached().contains(
                d.drop_last(),
            )
        &&& self.reached().contains(self.current())
        &&& forall|i: int|
            0 <= i < self.pending().len() ==> clear_of(
                self.excluded_names(),
                #[trigger] self.pending()[i],
            ) && self.reached().contains(self.pending()[i])
    }

    /// A walk that lists the root first and prunes the names in `excluded`.
    pub fn new(excluded: &Vec<String>) -> (r: TreeWalk)
        ensures
            r.wf(),
            r.excluded_names() == excluded@.map_values(|n: String| n@).to_set(),
            r.pending() == seq![Seq::<String>::empty()],
            r.current() == Seq::<String>::empty(),
            r.reached() == set![Seq::<String>::empty()],
    {
        let mut set = StringHashSet::new();
        let mut i: usize = 0;
        while i < excluded.len()
            invariant
                i <= excluded@.len(),
                set@ == excluded@.subrange(0, i as int).map_values(|n: String| n@).to_set(),
            decreases excluded.len() - i,
        {
            set.insert(excluded[i].clone());
            proof {
                let before = excluded@.subrange(0, i as int).map_values(|n: String| n@);
                let after = excluded@.subrange(0, i + 1).map_values(|n: String| n@);
                assert(after =~= before.push(excluded@[i as int]@));
                before.lemma_push_to_set_commute(excluded@[i as int]@);
            }
            i = i + 1;
        }
        assert(excluded@.subrange(0, excluded@.len() as int) =~= excluded@);
        let mut pending: Vec<Vec<String>> = Vec::new();
        pending.push(Vec::new());
        let ghost root: Set<Seq<String>> = set![Seq::<String>::empty()];
        let r = TreeWalk { excluded: set, pending, current: Vec::new(), reached: Ghost(root) };
        assert(r.pending() =~= seq![Seq::<String>::empty()]);
        r
    }

    /// Takes the next directory to list, the most recently queued one, and
    /// makes it current; `None` once every directory has been listed.
    pub fn next_dir(&mut self) -> (r: Option<Vec<String>>)
        requires
            old(self).wf(),
        ensures
            final(self).wf(),
            final(self).excluded_names() == old(self).excluded_names(),
            final(self).reached() == old(self).reached(),
            old(self).pending().len() == 0 ==> r is None && final(self).pending() == old(
                self,
            ).pending(),
            old(self).pending().len() > 0 ==> {
                &&& r matches Some(d) && d@ == old(self).pending().last()
                &&& final(self).current() == old(self).pending().last()
                &&& final(self).pending() == old(self).pending().drop_last()
            },
    {
        match self.pending.pop() {
            None => None,
            Some(d) => {
                let r = copy_parts(&d);
                self.current = d;
                proof {
                    assert(self.pending() =~= old(self).pending().drop_last());
                    assert(old(self).pending()[old(self).pending().len() - 1] == d@);
                }
                Some(r)
            },
        }
    }

    /// Visits the entry `name` of kind `kind` in the current directory. An
    /// entry with an excluded name is skipped, and a directory of that name is
    /// never listed; a directory is queued to be listed; other entries that
    /// are no file are passed by.
    pub fn visit(&mut self, name: String, kind: EntryKind) -> (r: Visit)
        requires
            old(self).wf(),
        ensures
            final(self).wf(),
            final(self).excluded_names() == old(self).excluded_names(),
            final(self).current() == old(self).current(),
            old(self).reached().contains(old(self).current()),
            r matches Visit::Dir(p) ==> final(self).reached() == old(self).reached().insert(p@),
            !(r is Dir) ==> final(self).reached() == old(self).reached(),
            old(self).excluded_names().contains(name@) ==> r is Skip && final(self).pending()
                == old(self).pending(),
            !old(self).excluded_names().contains(name@) ==> match kind {
                EntryKind::Dir => {
                    &&& r matches Visit::Dir(p) && p@ == old(self).current().push(name)
                    &&& final(self).pending() == old(self).pending().push(
                        old(self).current().push(name),
                    )
                },
                EntryKind::File => {
                    &&& r matches Visit::File(p) && p@ == old(self).current().push(name)
                    &&& final(self).pending() == old(self).pending()
                },
                EntryKind::Other => r is Skip && final(self).pending() == old(self).pending(),
            },
            r matches Visit::Dir(p) ==> clear_of(old(self).excluded_names(), p@),
            r matches Visit::File(p) ==> clear_of(old(self).excluded_names(), p@),
    {
        if self.excluded.contains(name.as_str()) {
            return Visit::Skip;
        }
        let ghost cur = self.current@;
        let mut p = copy_parts(&self.current);
        p.push(name);
        assert(clear_of(self.excluded@, p@)) by {
            assert forall|i: int| 0 <= i < p@.len() implies !self.excluded@.contains(
                #[trigger] p@[i]@,
            ) by {
                if i < cur.len() {
                    assert(p@[i] == cur[i]);
                }
            }
        }
        match kind {
            EntryKind::Dir => {
                self.pending.push(copy_parts(&p));
                self.reached = Ghost(self.reached@.insert(p@));
                proof {
                    assert(p@.drop_last() =~= cur);
                    assert(self.pending() =~= old(self).pending().push(p@));
                    assert forall|i: int| 0 <= i < self.pending().len() implies clear_of(
                        self.excluded_names(),
                        #[trigger] self.pending()[i],
                    ) && self.reached().contains(self.pending()[i]) by {
                        if i < old(self).pending().len() {
                            assert(self.pending()[i] == old(self).pending()[i]);
                        }
                    }
                }
                Visit::Dir(p)
            },
            EntryKind::File => Visit::File(p),
            EntryKind::Other => Visit::Skip,
        }
    }
}

/// Whether a file with metadata `cur` must be copied rather than linked to
/// its counterpart `prior` in the previous generation: it is new, its length
/// changed, its modification time moved by at least `min_diff_secs` seconds,
/// or the times cannot be compared (one is unknown or lies before the epoch).
pub open spec fn must_copy(prior: Option<FileMeta>, cur: FileMeta, min_diff_secs: u64) -> bool {
    match prior {
        None => true,
        Some(p) => cur.len != p.len || match (cur.modified, p.modified) {
            (Some(t1), Some(t2)) => match spec_diff_secs(t1, t2) {
                Ok(d) => d >= min_diff_secs,
                Err(_) => true,
            },
            _ => true,
        },
    }
}

/// Decides [`must_copy`].
pub fn needs_copy(prior: Option<FileMeta>, cur: &FileMeta, min_diff_secs: u64) -> (r: bool)
    ensures
        r == must_copy(prior, *cur, min_diff_secs),
{
    match prior {
        None => true,
        Some(p) => {
            if cur.len != p.len {
                true
            } else {
                match (cur.modified, p.modified) {
                    (Some(t1), Some(t2)) => match diff_secs(&t1, &t2) {
                        Ok(secs) => secs >= min_diff_secs,
                        Err(_) => true,
                    },
                    _ => true,
                }
            }
        },
    }
}

/// What the caller is to do with one file.
#[derive(Debug)]
pub enum FileOp {
    /// Copy the bytes of `from` into a new file at `to`.
    Copy { from: FsPath, to: FsPath },
    /// Create at `link` a hardlink to the existing file `target`.
    Link { target: FsPath, link: FsPath },
}

/// `r` is `base` with the relative components `rel` appended.
pub open spec fn joins(r: FsPath, base: FsPath, rel: Seq<String>) -> bool {
    r.anchor == base.anchor && r.parts@ == base.parts@ + rel
}

/// Counts one copied file of `bytes` bytes, or changes nothing and answers
/// `false` where a counter would overflow.
pub fn count_copy(bytes_copied: &mut u64, files_copied: &mut u64, bytes: u64) -> (r: bool)
    ensures
        r == (*old(bytes_copied) + bytes <= u64::MAX && *old(files_copied) + 1 <= u64::MAX),
        r ==> *final(bytes_copied) == *old(bytes_copied) + bytes && *final(files_copied) == *old(
            files_copied,
        ) + 1,
        !r ==> *final(bytes_copied) == *old(bytes_copied) && *final(files_copied) == *old(
            files_copied,
        ),
{
    match (bytes_copied.checked_add(bytes), files_copied.checked_add(1)) {
        (Some(b), Some(f)) => {
            *bytes_copied = b;
            *files_copied = f;
            true
        },
        _ => false,
    }
}

/// Directory creation: the directory `target` is created only where it does
/// not exist yet, so that materialising it again asks for nothing.
pub fn make_dir(target: FsPath, exists: bool) -> (r: Option<FsPath>)
    ensures
        exists ==> r is None,
        !exists ==> r == Some(target),
{
    if exists {
        None
    } else {
        Some(target)
    }
}

/// The behaviour of a walk: what to do with each file and each directory it
/// visits, and how to account for a file operation once it is done.
pub trait FileHandler {
    /// The operation for the file at `path`, relative to the walk's root.
    fn file(&mut self, path: &Vec<String>, meta: &FileMeta) -> Option<FileOp>;

    /// The destination directory that must exist for the directory at `path`.
    fn dir(&mut self, path: &Vec<String>) -> Option<FsPath>;

    /// Accounts for `op`, which was carried out and moved `bytes` bytes;
    /// `false` where the account would overflow.
    fn done(&mut self, op: &FileOp, bytes: u64) -> bool;
}

/// `r` is the result of adding one copied file of `bytes` bytes to the
/// counters `(bytes_copied, files_copied)`, which then become `after`:
/// `false`, with the counters unchanged, where one would overflow.
pub open spec fn counted(before: (u64, u64), after: (u64, u64), bytes: u64, r: bool) -> bool {
    &&& r == (before.0 + bytes <= u64::MAX && before.1 + 1 <= u64::MAX)
    &&& r ==> after.0 == before.0 + bytes && after.1 == before.1 + 1
    &&& !r ==> after == before
}

/// Gathers the files of the previous generation by their path relative to
/// its root; directories are ignored.
pub struct CollectorFileHandler {
    pub files: StringHashMap<FileMeta>,
}

impl CollectorFileHandler {
    /// A collector that holds no file yet.
    pub fn new() -> (r: CollectorFileHandler)
        ensures
            r.files@ == Map::<Seq<char>, FileMeta>::empty(),
    {
        CollectorFileHandler { files: StringHashMap::new() }
    }

    /// Records the file at `path`.
    pub fn record(&mut self, path: &Vec<String>, meta: &FileMeta)
        ensures
            final(self).files@ == old(self).files@.insert(path_key(path@), *meta),
    {
        let key = key_of(path);
        self.files.insert(key, *meta);
    }
}

impl FileHandler for CollectorFileHandler {
    /// Records the file under its relative path; nothing is to be done on disk.
    fn file(&mut self, path: &Vec<String>, meta: &FileMeta) -> (r: Option<FileOp>)
        ensures
            r is None,
            final(self).files@ == old(self).files@.insert(path_key(path@), *meta),
    {
        self.record(path, meta);
        None
    }

    /// Directories are ignored.
    fn dir(&mut self, _path: &Vec<String>) -> (r: Option<FsPath>)
        ensures
            r is None,
            final(self).files@ == old(self).files@,
    {
        None
    }

    /// Nothing to account for.
    fn done(&mut self, _op: &FileOp, _bytes: u64) -> (r: bool)
        ensures
            r,
            final(self).files@ == old(self).files@,
    {
        true
    }
}

/// Backs one source tree up against the previous generation: unchanged files
/// are hardlinked to the previous copy, others are copied.
///
/// `prev_files` holds the previous generation by path relative to its root,
/// where this tree lies at `prev_key_prefix`; `prev_dir` is that place on disk.
pub struct LinkOrCopyFileHandler<'a> {
    pub prev_files: &'a StringHashMap<FileMeta>,
    pub prev_key_prefix: Vec<String>,
    pub src_base_dir: FsPath,
    pub dest_dir: FsPath,
    pub prev_dir: FsPath,
    pub min_diff_secs: u64,
    pub bytes_copied: u64,
    pub files_copied: u64,
    pub verbose: bool,
}

impl<'a> LinkOrCopyFileHandler<'a> {
    /// The previous generation's record of the file at `path`, if it has one.
    pub open spec fn prior_of(&self, path: Seq<String>) -> Option<FileMeta> {
        let k = path_key(self.prev_key_prefix@ + path);
        if self.prev_files@.contains_key(k) {
            Some(self.prev_files@[k])
        } else {
            None
        }
    }

    /// `op` is the operation for the file at `path` with metadata `meta`: a
    /// copy from the source tree to the destination where [`must_copy`]
    /// holds, else a hardlink at the destination to the previous
    /// generation's file.
    pub open spec fn decides(&self, path: Seq<String>, meta: FileMeta, op: FileOp) -> bool {
        match op {
            FileOp::Copy { from, to } => {
                &&& must_copy(self.prior_of(path), meta, self.min_diff_secs)
                &&& joins(from, self.src_base_dir, path)
                &&& joins(to, self.dest_dir, path)
            },
            FileOp::Link { target, link } => {
                &&& !must_copy(self.prior_of(path), meta, self.min_diff_secs)
                &&& joins(target, self.prev_dir, path)
                &&& joins(link, self.dest_dir, path)
            },
        }
    }

    /// `next` is this handler after accounting for `op`, which moved `bytes`
    /// bytes, with answer `r`: a copy is counted, a link adds nothing.
    pub open spec fn accounts(&self, next: Self, op: FileOp, bytes: u64, r: bool) -> bool {
        &&& next.prev_files == self.prev_files
        &&& next.prev_key_prefix == self.prev_key_prefix
        &&& next.src_base_dir == self.src_base_dir
        &&& next.dest_dir == self.dest_dir
        &&& next.prev_dir == self.prev_dir
        &&& next.min_diff_secs == self.min_diff_secs
        &&& next.verbose == self.verbose
        &&& match op {
            FileOp::Copy { .. } => counted(
                (self.bytes_copied, self.files_copied),
                (next.bytes_copied, next.files_copied),
                bytes,
                r,
            ),
            FileOp::Link { .. } => r && next.bytes_copied == self.bytes_copied
                && next.files_copied == self.files_copied,
        }
    }

    /// The operation for the file at `path`.
    pub fn link_or_copy(&self, path: &Vec<String>, meta: &FileMeta) -> (r: FileOp)
        ensures
            self.decides(path@, *meta, r),
    {
        let mut key_path = copy_parts(&self.prev_key_prefix);
        let mut i: usize = 0;
        while i < path.len()
            invariant
                i <= path.len(),
                key_path@ == self.prev_key_prefix@ + path@.subrange(0, i as int),
            decreases path.len() - i,
        {
            key_path.push(path[i].clone());
            i = i + 1;
        }
        assert(path@.subrange(0, path@.len() as int) =~= path@);
        let key = key_of(&key_path);
        let prior = match self.prev_files.get(key.as_str()) {
            Some(p) => Some(*p),
            None => None,
        };
        let dest_path = self.dest_dir.join(path);
        if needs_copy(prior, meta, self.min_diff_secs) {
            FileOp::Copy { from: self.src_base_dir.join(path), to: dest_path }
        } else {
            FileOp::Link { target: self.prev_dir.join(path), link: dest_path }
        }
    }

    /// The destination directory that mirrors the source directory at `path`.
    pub fn dir_target(&self, path: &Vec<String>) -> (r: FsPath)
        ensures
            joins(r, self.dest_dir, path@),
    {
        self.dest_dir.join(path)
    }

    /// Accounts for `op`: a copy adds its bytes and one file, a link adds
    /// nothing; `false`, with nothing changed, where a counter would overflow.
    pub fn account(&mut self, op: &FileOp, bytes: u64) -> (r: bool)
        ensures
            old(self).accounts(*final(self), *op, bytes, r),
    {
        match op {
            FileOp::Copy { .. } => count_copy(&mut self.bytes_copied, &mut self.files_copied, bytes),
            FileOp::Link { .. } => true,
        }
    }
}

impl<'a> FileHandler for LinkOrCopyFileHandler<'a> {
    /// Always an operation: [`LinkOrCopyFileHandler::link_or_copy`].
    fn file(&mut self, path: &Vec<String>, meta: &FileMeta) -> (r: Option<FileOp>)
        ensures
            *final(self) == *old(self),
            r matches Some(op) && old(self).decides(path@, *meta, op),
    {
        Some(self.link_or_copy(path, meta))
    }

    /// Always the mirrored destination directory.
    fn dir(&mut self, path: &Vec<String>) -> (r: Option<FsPath>)
        ensures
            *final(self) == *old(self),
            r matches Some(t) && joins(t, old(self).dest_dir, path@),
    {
        Some(self.dir_target(path))
    }

    /// [`LinkOrCopyFileHandler::account`].
    fn done(&mut self, op: &FileOp, bytes: u64) -> (r: bool)
        ensures
            old(self).accounts(*final(self), *op, bytes, r),
    {
        self.account(op, bytes)
    }
}

/// Backs one source tree up when there is no previous generation: every
/// file is copied.
pub struct CopyFileHandler {
    pub src_base_dir: FsPath,
    pub dest_dir: FsPath,
    pub bytes_copied: u64,
    pub files_copied: u64,
}

impl CopyFileHandler {
    /// `op` is the copy of the file at `path` from the source tree to the destination.
    pub open spec fn copies(&self, path: Seq<String>, op: FileOp) -> bool {
        op matches FileOp::Copy { from, to } && joins(from, self.src_base_dir, path) && joins(
            to,
            self.dest_dir,
            path,
        )
    }

    /// `next` is this handler after counting one copy of `bytes` bytes, with answer `r`.
    pub open spec fn accounts(&self, next: Self, bytes: u64, r: bool) -> bool {
        &&& next.src_base_dir == self.src_base_dir
        &&& next.dest_dir == self.dest_dir
        &&& counted(
            (self.bytes_copied, self.files_copied),
            (next.bytes_copied, next.files_copied),
            bytes,
            r,
        )
    }

    /// The copy of the file at `path`.
    pub fn copy_op(&self, path: &Vec<String>) -> (r: FileOp)
        ensures
            self.copies(path@, r),
    {
        FileOp::Copy { from: self.src_base_dir.join(path), to: self.dest_dir.join(path) }
    }

    /// The destination directory that mirrors the source directory at `path`.
    pub fn dir_target(&self, path: &Vec<String>) -> (r: FsPath)
        ensures
            joins(r, self.dest_dir, path@),
    {
        self.dest_dir.join(path)
    }

    /// Accounts for a copy of `bytes` bytes; `false`, with nothing changed,
    /// where a counter would overflow.
    pub fn account(&mut self, bytes: u64) -> (r: bool)
        ensures
            old(self).accounts(*final(self), bytes, r),
    {
        count_copy(&mut self.bytes_copied, &mut self.files_copied, bytes)
    }
}

impl FileHandler for CopyFileHandler {
    /// Always the copy: [`CopyFileHandler::copy_op`].
    fn file(&mut self, path: &Vec<String>, _meta: &FileMeta) -> (r: Option<FileOp>)
        ensures
            *final(self) == *old(self),
            r matches Some(op) && old(self).copies(path@, op),
    {
        Some(self.copy_op(path))
    }

    /// Always the mirrored destination directory.
    fn dir(&mut self, path: &Vec<String>) -> (r: Option<FsPath>)
        ensures
            *final(self) == *old(self),
            r matches Some(t) && joins(t, old(self).dest_dir, path@),
    {
        Some(self.dir_target(path))
    }

    /// [`CopyFileHandler::account`]: every operation of this handler is a copy.
    fn done(&mut self, _op: &FileOp, bytes: u64) -> (r: bool)
        ensures
            old(self).accounts(*final(self), bytes, r),
    {
        self.account(bytes)
    }
}

/// Totals over the source trees of one run.
#[derive(Clone, Copy, Debug, PartialEq, Eq, Structural)]
pub struct CopyStats {
    pub bytes: u64,
    pub files: u64,
}

impl CopyStats {
    /// Nothing copied yet.
    pub fn new() -> (r: CopyStats)
        ensures
            r.bytes == 0,
            r.files == 0,
    {
        CopyStats { bytes: 0, files: 0 }
    }

    /// Adds `bytes` copied bytes and `files` copied files to the totals, or
    /// changes nothing and answers `false` where a total would overflow.
    pub fn add(&mut self, bytes: u64, files: u64) -> (r: bool)
        ensures
            r == (old(self).bytes + bytes <= u64::MAX && old(self).files + files <= u64::MAX),
            r ==> final(self).bytes == old(self).bytes + bytes && final(self).files == old(
                self,
            ).files + files,
            !r ==> *final(self) == *old(self),
    {
        match (self.bytes.checked_add(bytes), self.files.checked_add(files)) {
            (Some(b), Some(f)) => {
                self.bytes = b;
                self.files = f;
                true
            },
            _ => false,
        }
    }
}

} // verus!
