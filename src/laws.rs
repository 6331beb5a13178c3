//! Properties of a backup run that relate several of the library's functions.
use crate::files::{must_copy, path_key, FileMeta, LinkOrCopyFileHandler};
use crate::time::spec_diff_secs;
use vstd::prelude::*;

verus! {

/// A file that the previous generation recorded with the same length and a
/// modification time less than the threshold away is hardlinked, not
/// copied: [`LinkOrCopyFileHandler::link_or_copy`] then links the
/// destination to the previous generation's file, and accounting for the
/// link adds no bytes.
pub proof fn lemma_unchanged_file_is_linked(
    h: &LinkOrCopyFileHandler,
    recorded: Map<Seq<char>, FileMeta>,
    path: Seq<String>,
    prior: FileMeta,
    cur: FileMeta,
)
    requires
        h.prev_files@ == recorded.insert(path_key(h.prev_key_prefix@ + path), prior),
        cur.len == prior.len,
        cur.modified matches Some(t1),
        prior.modified matches Some(t2),
        spec_diff_secs(cur.modified->Some_0, prior.modified->Some_0) matches Ok(d) && d
            < h.min_diff_secs,
    ensures
        h.prior_of(path) == Some(prior),
        !must_copy(h.prior_of(path), cur, h.min_diff_secs),
{
}

/// A file whose length differs from the previous generation's record is
/// copied, whatever its modification time.
pub proof fn lemma_resized_file_is_copied(prior: FileMeta, cur: FileMeta, min_diff_secs: u64)
    requires
        cur.len != prior.len,
    ensures
        must_copy(Some(prior), cur, min_diff_secs),
{
}

/// A file that the previous generation does not hold is copied.
pub proof fn lemma_new_file_is_copied(h: &LinkOrCopyFileHandler, path: Seq<String>, cur: FileMeta)
    requires
        !h.prev_files@.contains_key(path_key(h.prev_key_prefix@ + path)),
    ensures
        h.prior_of(path) is None,
        must_copy(h.prior_of(path), cur, h.min_diff_secs),
{
}

/// Placing relative paths under a destination mirrors the source tree:
/// distinct paths stay distinct, and the child `name` of a directory lands
/// as the child `name` of that directory's place.
pub proof fn lemma_mirror_preserves_structure(
    dest: Seq<String>,
    p: Seq<String>,
    q: Seq<String>,
    name: String,
)
    ensures
        (dest + p == dest + q) <==> (p == q),
        dest + p.push(name) == (dest + p).push(name),
{
    if dest + p == dest + q {
        assert(p =~= (dest + p).subrange(dest.len() as int, (dest + p).len() as int));
        assert(q =~= (dest + q).subrange(dest.len() as int, (dest + q).len() as int));
    }
    assert(dest + p.push(name) =~= (dest + p).push(name));
}

/// Raising the threshold never turns a hardlink into a copy.
pub proof fn lemma_threshold_monotone(prior: Option<FileMeta>, cur: FileMeta, m1: u64, m2: u64)
    requires
        m1 <= m2,
        !must_copy(prior, cur, m1),
    ensures
        !must_copy(prior, cur, m2),
{
}

/// With a threshold of zero every file is copied.
pub proof fn lemma_zero_threshold_copies(prior: Option<FileMeta>, cur: FileMeta)
    ensures
        must_copy(prior, cur, 0),
{
}

/// Against an empty previous generation every file is copied, as on a
/// first run.
pub proof fn lemma_empty_prior_copies(h: &LinkOrCopyFileHandler, path: Seq<String>, cur: FileMeta)
    requires
        h.prev_files@ == Map::<Seq<char>, FileMeta>::empty(),
    ensures
        must_copy(h.prior_of(path), cur, h.min_diff_secs),
{
}

} // verus!
