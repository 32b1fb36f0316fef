//! Directory listings built from what a walk of one directory level reports.
use vstd::prelude::*;

verus! {

/// One child of a listed directory.
#[derive(Debug, Clone)]
pub struct FileInfo {
    pub name: String,
    pub path: String,
    pub is_directory: bool,
    /// The length in bytes; present for a regular file only.
    pub size: Option<u64>,
}

/// What the walk reported of one entry, the listed directory itself included.
#[derive(Debug, Clone)]
pub struct DirEntryFacts {
    pub name: String,
    pub path: String,
    pub is_dir: bool,
    pub is_file: bool,
    pub len: u64,
}

/// The listing entry that stands for `e`.
pub open spec fn info_of(e: DirEntryFacts) -> FileInfo {
    FileInfo {
        name: e.name,
        path: e.path,
        is_directory: e.is_dir,
        size: if e.is_file { Some(e.len) } else { None },
    }
}

/// The listing of `root`: every reported entry but `root` itself, in the
/// order reported.
pub open spec fn listing_of(root: Seq<char>, entries: Seq<DirEntryFacts>) -> Seq<FileInfo>
    decreases entries.len(),
{
    if entries.len() == 0 {
        Seq::empty()
    } else {
        let rest = listing_of(root, entries.drop_last());
        let last = entries.last();
        if last.path@ == root {
            rest
        } else {
            rest.push(info_of(last))
        }
    }
}

/// Builds the listing of `root` from the entries that a walk of depth one
/// reported. The directory itself is left out; the others keep their order.
pub fn listing_from_entries(root: &String, entries: &Vec<DirEntryFacts>) -> (r: Vec<FileInfo>)
    ensures
        r@ == listing_of(root@, entries@),
        forall|i: int| 0 <= i < r@.len() ==> (#[trigger] r@[i]).path@ != root@,
{
    let mut out: Vec<FileInfo> = Vec::new();
    let mut i: usize = 0;
    while i < entries.len()
        invariant
            i <= entries@.len(),
            out@ == listing_of(root@, entries@.take(i as int)),
        decreases entries.len() - i,
    {
        let e = &entries[i];
        assert(entries@.take(i as int + 1).drop_last() =~= entries@.take(i as int));
        if !(e.path == *root) {
            let size = if e.is_file { Some(e.len) } else { None };
            out.push(FileInfo { name: e.name.clone(), path: e.path.clone(), is_directory: e.is_dir, size });
        }
        i = i + 1;
    }
    assert(entries@.take(entries@.len() as int) =~= entries@);
    proof {
        lemma_listing_excludes_root(root@, entries@);
    }
    out
}

/// No entry of a listing is the listed directory itself.
pub proof fn lemma_listing_excludes_root(root: Seq<char>, entries: Seq<DirEntryFacts>)
    ensures
        forall|i: int| 0 <= i < listing_of(root, entries).len()
            ==> (#[trigger] listing_of(root, entries)[i]).path@ != root,
    decreases entries.len(),
{
    if entries.len() > 0 {
        lemma_listing_excludes_root(root, entries.drop_last());
    }
}

} // verus!
