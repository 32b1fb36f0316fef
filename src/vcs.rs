//! The repository library's types and calls that the history operations use.
//! Each function here makes one call into git2 (with what converts its
//! arguments and result) and states what git2 documents of it.
use vstd::prelude::*;
use git2::{
    Blob, Buf, Commit, Diff, DiffOptions, DiffStats, Error, Index, Oid, Reference, Repository, Revwalk,
    Signature, StatusEntry, Statuses, Time, Tree, TreeEntry,
};

verus! {

#[verifier::external_type_specification]
#[verifier::external_body]
pub struct ExRepository(Repository);

#[verifier::external_type_specification]
#[verifier::external_body]
pub struct ExError(Error);

#[verifier::external_type_specification]
#[verifier::external_body]
pub struct ExOid(Oid);

#[verifier::external_type_specification]
#[verifier::external_body]
pub struct ExIndex(Index);

#[verifier::external_type_specification]
#[verifier::external_body]
pub struct ExSignature<'a>(Signature<'a>);

#[verifier::external_type_specification]
#[verifier::external_body]
pub struct ExTree<'a>(Tree<'a>);

#[verifier::external_type_specification]
#[verifier::external_body]
pub struct ExCommit<'a>(Commit<'a>);

#[verifier::external_type_specification]
#[verifier::external_body]
pub struct ExReference<'a>(Reference<'a>);

#[verifier::external_type_specification]
#[verifier::external_body]
pub struct ExRevwalk<'a>(Revwalk<'a>);

#[verifier::external_type_specification]
#[verifier::external_body]
pub struct ExDiff<'a>(Diff<'a>);

#[verifier::external_type_specification]
#[verifier::external_body]
pub struct ExBlob<'a>(Blob<'a>);

#[verifier::external_type_specification]
#[verifier::external_body]
pub struct ExTreeEntry<'a>(TreeEntry<'a>);

#[verifier::external_type_specification]
#[verifier::external_body]
pub struct ExStatuses<'a>(Statuses<'a>);

#[verifier::external_type_specification]
#[verifier::external_body]
pub struct ExStatusEntry<'a>(StatusEntry<'a>);

#[verifier::external_type_specification]
#[verifier::external_body]
pub struct ExTime(Time);

#[verifier::external_type_specification]
#[verifier::external_body]
pub struct ExDiffOptions(DiffOptions);

#[verifier::external_type_specification]
#[verifier::external_body]
pub struct ExDiffStats(DiffStats);

#[verifier::external_type_specification]
#[verifier::external_body]
pub struct ExBuf(Buf);

/// A hexadecimal digit, either case.
pub open spec fn is_hex_digit(c: char) -> bool {
    ('0' <= c && c <= '9') || ('a' <= c && c <= 'f') || ('A' <= c && c <= 'F')
}

/// A hexadecimal digit as git2 writes one: lower case.
pub open spec fn is_lower_hex_digit(c: char) -> bool {
    ('0' <= c && c <= '9') || ('a' <= c && c <= 'f')
}

/// Text that git2 parses as an object id: one to forty hexadecimal digits.
pub open spec fn is_oid_text(s: Seq<char>) -> bool {
    &&& 0 < s.len() <= 40
    &&& forall|i: int| 0 <= i < s.len() ==> is_hex_digit(#[trigger] s[i])
}

/// Relies on git2::Repository::init: creates (or re-initializes) a repository at `path`.
#[verifier::external_body]
pub(crate) fn repo_init(path: &str) -> (r: Result<Repository, Error>) {
    Repository::init(path)
}

/// Relies on git2::Repository::open: opens the repository at `path`.
#[verifier::external_body]
pub(crate) fn repo_open(path: &str) -> (r: Result<Repository, Error>) {
    Repository::open(path)
}

/// Relies on git2::Error::message: the error's text.
#[verifier::external_body]
pub(crate) fn error_text(e: &Error) -> (r: String) {
    e.message().to_string()
}

/// Relies on git2::Oid::from_str, which fails exactly when the text is empty,
/// longer than forty characters, or holds a character that is not a hex digit.
#[verifier::external_body]
pub(crate) fn parse_oid(s: &str) -> (r: Result<Oid, Error>)
    ensures
        r is Ok <==> is_oid_text(s@),
{
    Oid::from_str(s)
}

/// Relies on git2's Display for Oid (libgit2's git_oid_tostr): forty
/// lower-case hexadecimal digits.
#[verifier::external_body]
pub(crate) fn oid_text(id: &Oid) -> (r: String)
    ensures
        r@.len() == 40,
        forall|i: int| 0 <= i < r@.len() ==> is_lower_hex_digit(#[trigger] r@[i]),
{
    id.to_string()
}

/// Relies on git2::Signature::now: an identity stamped with the current time.
#[verifier::external_body]
pub(crate) fn signature_now(name: &str, email: &str) -> (r: Result<Signature<'static>, Error>) {
    Signature::now(name, email)
}

/// Relies on git2::Repository::index: the repository's staging area.
#[verifier::external_body]
pub(crate) fn repo_index(repo: &Repository) -> (r: Result<Index, Error>) {
    repo.index()
}

/// Relies on git2::Index::add_all: stages every path of the working tree
/// (the pattern `*`, default options, no callback).
#[verifier::external_body]
pub(crate) fn index_stage_everything(index: &mut Index) -> (r: Result<(), Error>) {
    index.add_all(["*"].iter(), git2::IndexAddOption::DEFAULT, None)
}

/// Relies on git2::Index::write: writes the staging area back to disk.
#[verifier::external_body]
pub(crate) fn index_write(index: &mut Index) -> (r: Result<(), Error>) {
    index.write()
}

/// Relies on git2::Index::write_tree: writes a tree object from the staging area.
#[verifier::external_body]
pub(crate) fn index_write_tree(index: &mut Index) -> (r: Result<Oid, Error>) {
    index.write_tree()
}

/// Relies on git2::Repository::find_tree: looks a tree object up by id.
#[verifier::external_body]
pub(crate) fn find_tree(repo: &Repository, id: Oid) -> (r: Result<Tree<'_>, Error>) {
    repo.find_tree(id)
}

/// Relies on git2::Repository::head: the reference that HEAD points to.
#[verifier::external_body]
pub(crate) fn repo_head(repo: &Repository) -> (r: Result<Reference<'_>, Error>) {
    repo.head()
}

/// Relies on git2::Reference::peel_to_commit: the commit a reference leads to.
#[verifier::external_body]
pub(crate) fn peel_to_commit<'r>(head: &Reference<'r>) -> (r: Result<Commit<'r>, Error>) {
    head.peel_to_commit()
}

/// Relies on git2::Reference::peel_to_tree: the tree a reference leads to.
#[verifier::external_body]
pub(crate) fn peel_to_tree<'r>(head: &Reference<'r>) -> (r: Result<Tree<'r>, Error>) {
    head.peel_to_tree()
}

/// Relies on git2::Repository::commit: writes a commit with `sig` as author and
/// committer, the given parent if any, and moves HEAD to it.
#[verifier::external_body]
pub(crate) fn create_commit(
    repo: &Repository,
    sig: &Signature<'static>,
    message: &str,
    tree: &Tree<'_>,
    parent: Option<&Commit<'_>>,
) -> (r: Result<Oid, Error>) {
    let parents: Vec<&Commit<'_>> = parent.into_iter().collect();
    repo.commit(Some("HEAD"), sig, sig, message, tree, &parents)
}

/// Relies on git2::Repository::statuses: the entries that differ from the
/// last commit, with default options.
#[verifier::external_body]
pub(crate) fn repo_statuses(repo: &Repository) -> (r: Result<Statuses<'_>, Error>) {
    repo.statuses(None)
}

/// Relies on git2::Statuses::len: the number of entries.
#[verifier::external_body]
pub(crate) fn statuses_len(st: &Statuses<'_>) -> (r: usize) {
    st.len()
}

/// Relies on git2::Statuses::get: the entry at `i`, absent only when `i` is
/// out of bounds.
#[verifier::external_body]
pub(crate) fn statuses_get<'s>(st: &'s Statuses<'_>, i: usize) -> (r: Option<StatusEntry<'s>>) {
    st.get(i)
}

/// Relies on git2::StatusEntry::path: the entry's path, absent when it is not UTF-8.
#[verifier::external_body]
pub(crate) fn status_entry_path(e: &StatusEntry<'_>) -> (r: Option<String>) {
    e.path().map(|p| p.to_string())
}

/// Relies on git2::Repository::is_empty: whether the repository has no commits yet.
#[verifier::external_body]
pub(crate) fn repo_is_empty(repo: &Repository) -> (r: Result<bool, Error>) {
    repo.is_empty()
}

/// Relies on git2::Repository::revwalk: a new, empty history walk.
#[verifier::external_body]
pub(crate) fn new_revwalk(repo: &Repository) -> (r: Result<Revwalk<'_>, Error>) {
    repo.revwalk()
}

/// Relies on git2::Revwalk::push_head: starts the walk at the head commit.
#[verifier::external_body]
pub(crate) fn walk_push_head(walk: &mut Revwalk<'_>) -> (r: Result<(), Error>) {
    walk.push_head()
}

/// Relies on git2's Iterator for Revwalk: the next commit id of the walk.
#[verifier::external_body]
pub(crate) fn walk_next(walk: &mut Revwalk<'_>) -> (r: Option<Result<Oid, Error>>) {
    walk.next()
}

/// Relies on git2::Repository::find_commit: looks a commit up by id.
#[verifier::external_body]
pub(crate) fn find_commit(repo: &Repository, id: Oid) -> (r: Result<Commit<'_>, Error>) {
    repo.find_commit(id)
}

/// Relies on git2::Commit::id: the commit's own id.
#[verifier::external_body]
pub(crate) fn commit_id(c: &Commit<'_>) -> (r: Oid) {
    c.id()
}

/// Relies on git2::Commit::message: the message, absent when it is not UTF-8.
#[verifier::external_body]
pub(crate) fn commit_message(c: &Commit<'_>) -> (r: Option<String>) {
    c.message().map(|m| m.to_string())
}

/// Relies on git2::Commit::author: the commit's author.
#[verifier::external_body]
pub(crate) fn commit_author<'c>(c: &'c Commit<'_>) -> (r: Signature<'c>) {
    c.author()
}

/// Relies on git2::Signature::name: the name, absent when it is not UTF-8.
#[verifier::external_body]
pub(crate) fn signature_name(sig: &Signature<'_>) -> (r: Option<String>) {
    sig.name().map(|n| n.to_string())
}

/// Relies on git2::Signature::when: the time the signature records.
#[verifier::external_body]
pub(crate) fn signature_when(sig: &Signature<'_>) -> (r: Time) {
    sig.when()
}

/// Relies on git2::Time::seconds: seconds since the epoch.
#[verifier::external_body]
pub(crate) fn time_seconds(t: &Time) -> (r: i64) {
    t.seconds()
}

/// Relies on git2::Commit::tree: the tree the commit records.
#[verifier::external_body]
pub(crate) fn commit_tree<'r>(c: &Commit<'r>) -> (r: Result<Tree<'r>, Error>) {
    c.tree()
}

/// Relies on git2::Tree::get_path: the entry at `path` inside the tree.
#[verifier::external_body]
pub(crate) fn tree_get_path(tree: &Tree<'_>, path: &str) -> (r: Result<TreeEntry<'static>, Error>) {
    tree.get_path(std::path::Path::new(path))
}

/// Relies on git2::TreeEntry::id: the id of the object the entry names.
#[verifier::external_body]
pub(crate) fn tree_entry_id(e: &TreeEntry<'_>) -> (r: Oid) {
    e.id()
}

/// Relies on git2::Repository::find_blob: looks a blob up by id.
#[verifier::external_body]
pub(crate) fn find_blob(repo: &Repository, id: Oid) -> (r: Result<Blob<'_>, Error>) {
    repo.find_blob(id)
}

/// Relies on git2::Blob::content: the blob's bytes.
#[verifier::external_body]
pub(crate) fn blob_content(b: &Blob<'_>) -> (r: Vec<u8>) {
    b.content().to_vec()
}

/// Relies on git2::DiffOptions::new: options with every flag off.
#[verifier::external_body]
pub(crate) fn diff_options_new() -> (r: DiffOptions) {
    DiffOptions::new()
}

/// Relies on git2::DiffOptions::pathspec: restricts a diff to paths matching
/// `spec`. It panics on text holding a NUL character, which is left out.
#[verifier::external_body]
pub(crate) fn diff_options_pathspec(opts: &mut DiffOptions, spec: &str)
    requires
        !spec@.contains('\0'),
{
    opts.pathspec(spec);
}

/// Relies on git2::Repository::diff_tree_to_workdir: the changes from `tree`
/// to the working tree under the given options.
#[verifier::external_body]
pub(crate) fn diff_tree_to_workdir<'r>(
    repo: &'r Repository,
    tree: &Tree<'r>,
    opts: &mut DiffOptions,
) -> (r: Result<Diff<'r>, Error>) {
    repo.diff_tree_to_workdir(Some(tree), Some(opts))
}

/// Relies on git2::Diff::stats: the statistics of all changes in the diff.
#[verifier::external_body]
pub(crate) fn diff_stats(diff: &Diff<'_>) -> (r: Result<DiffStats, Error>) {
    diff.stats()
}

/// Relies on git2::DiffStats::to_buf: the full statistics block at `width` columns.
#[verifier::external_body]
pub(crate) fn stats_full_text(stats: &DiffStats, width: usize) -> (r: Result<Buf, Error>) {
    stats.to_buf(git2::DiffStatsFormat::FULL, width)
}

/// Relies on git2::Buf::as_str: the buffer's text, absent when it is not UTF-8.
#[verifier::external_body]
pub(crate) fn buf_text(buf: &Buf) -> (r: Option<String>) {
    buf.as_str().map(|t| t.to_string())
}

} // verus!
