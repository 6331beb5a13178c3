//! Paths as an anchor (a root or a drive prefix, possibly empty) followed by
//! the names of their components.
use vstd::prelude::*;

verus! {

/// A path: `anchor` is empty for a relative path and holds the root (with
/// any prefix) of an absolute one; `parts` are its other components in order.
#[derive(Debug)]
pub struct FsPath {
    pub anchor: String,
    pub parts: Vec<String>,
}

/// A copy of a list of path components.
pub fn copy_parts(v: &Vec<String>) -> (r: Vec<String>)
    ensures
        r@ == v@,
{
    let mut r: Vec<String> = Vec::new();
    let mut i: usize = 0;
    while i < v.len()
        invariant
            i <= v.len(),
            r@ == v@.subrange(0, i as int),
        decreases v.len() - i,
    {
        r.push(v[i].clone());
        i = i + 1;
    }
    assert(r@ =~= v@);
    r
}

impl FsPath {
    /// Whether the path is anchored at a root.
    pub open spec fn is_absolute(&self) -> bool {
        self.anchor@.len() > 0
    }

    /// The path of the given anchor and components.
    pub fn new(anchor: String, parts: Vec<String>) -> (r: FsPath)
        ensures
            r.anchor == anchor,
            r.parts@ == parts@,
    {
        FsPath { anchor, parts }
    }

    /// The empty relative path.
    pub fn empty() -> (r: FsPath)
        ensures
            r.anchor@.len() == 0,
            r.parts@.len() == 0,
    {
        FsPath { anchor: String::new(), parts: Vec::new() }
    }

    /// An identical copy of this path.
    pub fn duplicate(&self) -> (r: FsPath)
        ensures
            r.anchor == self.anchor,
            r.parts@ == self.parts@,
    {
        FsPath { anchor: self.anchor.clone(), parts: copy_parts(&self.parts) }
    }

    /// This path with the relative components `rel` appended.
    pub fn join(&self, rel: &Vec<String>) -> (r: FsPath)
        ensures
            r.anchor == self.anchor,
            r.parts@ == self.parts@ + rel@,
    {
        let mut parts = copy_parts(&self.parts);
        let mut i: usize = 0;
        while i < rel.len()
            invariant
                i <= rel.len(),
                parts@ == self.parts@ + rel@.subrange(0, i as int),
            decreases rel.len() - i,
        {
            parts.push(rel[i].clone());
            i = i + 1;
        }
        assert(rel@.subrange(0, rel@.len() as int) =~= rel@);
        FsPath { anchor: self.anchor.clone(), parts }
    }

    /// Extends this path by `p`: an absolute `p` replaces it, a relative one is
    /// appended to it.
    pub fn push_path(&mut self, p: &FsPath)
        ensures
            p.is_absolute() ==> final(self).anchor == p.anchor && final(self).parts@ == p.parts@,
            !p.is_absolute() ==> final(self).anchor == old(self).anchor && final(self).parts@
                == old(self).parts@ + p.parts@,
    {
        if !p.anchor.as_str().is_empty() {
            *self = p.duplicate();
        } else {
            *self = self.join(&p.parts);
        }
    }

    /// The last component, if the path has one; a bare root has none.
    pub fn file_name(&self) -> (r: Option<&String>)
        ensures
            self.parts@.len() == 0 ==> r is None,
            self.parts@.len() > 0 ==> r == Some(&self.parts@.last()),
    {
        if self.parts.len() == 0 {
            None
        } else {
            Some(&self.parts[self.parts.len() - 1])
        }
    }
}

/// Appends to `buf` the destination `dest` and then the last component of
/// `src`, so that a source tree is placed under its own leaf name. Returns
/// `None`, having appended `dest` alone, where `src` has no last component.
pub fn dest_dir_from_src_leaf_dir(src: &FsPath, dest: &FsPath, buf: &mut FsPath) -> (r: Option<()>)
    ensures
        r is Some <==> src.parts@.len() > 0,
        dest.is_absolute() ==> final(buf).anchor == dest.anchor,
        !dest.is_absolute() ==> final(buf).anchor == old(buf).anchor,
        final(buf).parts@ == (if dest.is_absolute() {
            dest.parts@
        } else {
            old(buf).parts@ + dest.parts@
        }) + (if src.parts@.len() > 0 {
            seq![src.parts@.last()]
        } else {
            Seq::empty()
        }),
{
    buf.push_path(dest);
    match src.file_name() {
        Some(leaf) => {
            buf.parts.push(leaf.clone());
            Some(())
        },
        None => {
            assert(buf.parts@ + Seq::<String>::empty() =~= buf.parts@);
            None
        },
    }
}

} // verus!
