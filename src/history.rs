//! The history operations on a project directory. Each call opens the
//! repository afresh and keeps no handle once it returns.
use vstd::prelude::*;
use git2::{Commit, Error, Repository};
use crate::error::{Stage, StoreError};
use crate::record::{CommitInfo, record_from_parts, text_or_empty};
use crate::vcs::{
    is_oid_text, is_hex_digit, is_lower_hex_digit, repo_init, repo_open, error_text, parse_oid, oid_text, signature_now, repo_index,
    index_stage_everything, index_write, index_write_tree, find_tree, repo_head, peel_to_commit,
    peel_to_tree, create_commit, repo_statuses, statuses_len, statuses_get, status_entry_path,
    repo_is_empty, new_revwalk, walk_push_head, walk_next, find_commit, commit_id, commit_message,
    commit_author, signature_name, signature_when, time_seconds, commit_tree, tree_get_path,
    tree_entry_id, find_blob, blob_content, diff_options_new, diff_options_pathspec,
    diff_tree_to_workdir, diff_stats, stats_full_text, buf_text,
};

verus! {

/// The width, in columns, of the diff statistics block.
pub const DIFF_WIDTH: usize = 80;

/// The failure at `stage` whose cause is `e`.
fn failure(stage: Stage, e: &Error) -> (r: StoreError)
    ensures
        r.stage == stage,
        r.wf(),
{
    StoreError::at(stage, error_text(e))
}

/// The steps at which a commit can fail.
pub open spec fn commit_stage(s: Stage) -> bool {
    ||| s == Stage::OpenRepository
    ||| s == Stage::CreateSignature
    ||| s == Stage::CheckEmpty
    ||| s == Stage::OpenIndex
    ||| s == Stage::StageFiles
    ||| s == Stage::WriteIndex
    ||| s == Stage::WriteTree
    ||| s == Stage::FindTree
    ||| s == Stage::ParentCommit
    ||| s == Stage::CreateCommit
}

/// The steps at which reading the log can fail.
pub open spec fn log_stage(s: Stage) -> bool {
    ||| s == Stage::OpenRepository
    ||| s == Stage::CheckEmpty
    ||| s == Stage::StartWalk
    ||| s == Stage::WalkStep
    ||| s == Stage::FindCommit
}

/// The steps at which the diff summary can fail.
pub open spec fn diff_stage(s: Stage) -> bool {
    ||| s == Stage::PathFilter
    ||| s == Stage::OpenRepository
    ||| s == Stage::HeadTree
    ||| s == Stage::ComputeDiff
    ||| s == Stage::FormatDiff
}

/// The steps at which reading a historical file version can fail.
pub open spec fn version_stage(s: Stage) -> bool {
    ||| s == Stage::ParseCommitId
    ||| s == Stage::OpenRepository
    ||| s == Stage::FindCommit
    ||| s == Stage::CommitTree
    ||| s == Stage::PathInCommit
    ||| s == Stage::ReadBlob
}

/// The present values of a sequence of optional strings, in order.
pub open spec fn present_texts(s: Seq<Option<String>>) -> Seq<Seq<char>>
    decreases s.len(),
{
    if s.len() == 0 {
        Seq::empty()
    } else {
        let rest = present_texts(s.drop_last());
        match s.last() {
            Some(t) => rest.push(t@),
            None => rest,
        }
    }
}

/// A commit id as this store hands it out: forty lower-case hex digits.
pub open spec fn is_commit_id(s: Seq<char>) -> bool {
    &&& s.len() == 40
    &&& forall|i: int| 0 <= i < s.len() ==> is_lower_hex_digit(#[trigger] s[i])
}

/// Every commit id that the store hands out is accepted where a commit id
/// is read back: it never fails as malformed.
pub proof fn lemma_commit_id_is_accepted(s: Seq<char>)
    requires
        is_commit_id(s),
    ensures
        is_oid_text(s),
{
    assert forall|i: int| 0 <= i < s.len() implies is_hex_digit(#[trigger] s[i]) by {
        assert(is_lower_hex_digit(s[i]));
    }
}

/// The parent of the next commit: none when the repository has no commits
/// yet, else the commit that HEAD leads to.
pub fn commit_parent(repo: &Repository, is_empty: bool) -> (r: Result<Option<Commit<'_>>, StoreError>)
    ensures
        is_empty ==> (r matches Ok(p) && p is None),
        !is_empty ==> (r matches Ok(p) ==> p is Some),
        r matches Err(e) ==> e.stage == Stage::ParentCommit && e.wf(),
{
    if is_empty {
        return Ok(None);
    }
    let head = match repo_head(repo) {
        Ok(h) => h,
        Err(e) => return Err(failure(Stage::ParentCommit, &e)),
    };
    match peel_to_commit(&head) {
        Ok(c) => Ok(Some(c)),
        Err(e) => Err(failure(Stage::ParentCommit, &e)),
    }
}

/// The log of a repository decided before any walk: empty when it has no
/// commits, else none yet (the walk decides).
pub fn log_start(is_empty: bool) -> (r: Option<Vec<CommitInfo>>)
    ensures
        is_empty ==> (r matches Some(v) && v@.len() == 0),
        !is_empty ==> r is None,
{
    if is_empty {
        Some(Vec::new())
    } else {
        None
    }
}

/// The text of a statistics block; one that is not valid UTF-8 reads as empty.
pub fn summary_text(t: Option<String>) -> (r: String)
    ensures
        r@ == text_or_empty(t),
{
    match t {
        Some(text) => text,
        None => String::new(),
    }
}

/// Whether `s` holds a NUL character, which no path filter may hold.
pub fn has_nul(s: &String) -> (r: bool)
    ensures
        r == s@.contains('\0'),
{
    let t = s.as_str();
    let n = t.unicode_len();
    let mut i: usize = 0;
    while i < n
        invariant
            n == t@.len(),
            t@ == s@,
            i <= n,
            forall|k: int| 0 <= k < i ==> t@[k] != '\0',
        decreases n - i,
    {
        if t.get_char(i) == '\0' {
            return true;
        }
        i = i + 1;
    }
    false
}

/// Creates the repository metadata at `path`, or re-initializes it without
/// touching existing history.
pub fn init_git_repo(path: String) -> (r: Result<(), StoreError>)
    ensures
        r matches Err(e) ==> e.stage == Stage::InitRepository && e.wf(),
{
    match repo_init(path.as_str()) {
        Ok(_) => Ok(()),
        Err(e) => Err(failure(Stage::InitRepository, &e)),
    }
}

/// Stages every file under `repo_path`, writes a tree from the stage and
/// commits it on top of the head commit (with no parent when there is none
/// yet), with the given identity as author and committer. Returns the new
/// commit's id.
pub fn git_commit(repo_path: String, message: String, author_name: String, author_email: String)
    -> (r: Result<String, StoreError>)
    ensures
        r matches Ok(id) ==> is_commit_id(id@),
        r matches Err(e) ==> commit_stage(e.stage) && e.wf(),
{
    let repo = match repo_open(repo_path.as_str()) {
        Ok(repo) => repo,
        Err(e) => return Err(failure(Stage::OpenRepository, &e)),
    };
    let sig = match signature_now(author_name.as_str(), author_email.as_str()) {
        Ok(sig) => sig,
        Err(e) => return Err(failure(Stage::CreateSignature, &e)),
    };
    let mut index = match repo_index(&repo) {
        Ok(index) => index,
        Err(e) => return Err(failure(Stage::OpenIndex, &e)),
    };
    if let Err(e) = index_stage_everything(&mut index) {
        return Err(failure(Stage::StageFiles, &e));
    }
    if let Err(e) = index_write(&mut index) {
        return Err(failure(Stage::WriteIndex, &e));
    }
    let tree_id = match index_write_tree(&mut index) {
        Ok(id) => id,
        Err(e) => return Err(failure(Stage::WriteTree, &e)),
    };
    let tree = match find_tree(&repo, tree_id) {
        Ok(tree) => tree,
        Err(e) => return Err(failure(Stage::FindTree, &e)),
    };
    let is_empty = match repo_is_empty(&repo) {
        Ok(b) => b,
        Err(e) => return Err(failure(Stage::CheckEmpty, &e)),
    };
    let parent = match commit_parent(&repo, is_empty) {
        Ok(p) => p,
        Err(e) => return Err(e),
    };
    let new_id = match create_commit(&repo, &sig, message.as_str(), &tree, parent.as_ref()) {
        Ok(id) => id,
        Err(e) => return Err(failure(Stage::CreateCommit, &e)),
    };
    Ok(oid_text(&new_id))
}

/// Keeps the present paths of a status report, in order.
pub fn present_paths(entries: Vec<Option<String>>) -> (r: Vec<String>)
    ensures
        r@.map_values(|s: String| s@) == present_texts(entries@),
{
    let mut out: Vec<String> = Vec::new();
    let mut i: usize = 0;
    while i < entries.len()
        invariant
            i <= entries@.len(),
            out@.map_values(|s: String| s@) == present_texts(entries@.take(i as int)),
        decreases entries.len() - i,
    {
        assert(entries@.take(i as int + 1).drop_last() =~= entries@.take(i as int));
        let ghost before = out@;
        match &entries[i] {
            Some(p) => {
                out.push(p.clone());
                assert(out@.map_values(|s: String| s@) =~= before.map_values(|s: String| s@).push(p@));
            },
            None => {},
        }
        i = i + 1;
    }
    assert(entries@.take(entries@.len() as int) =~= entries@);
    out
}

/// The paths that differ between the working tree or stage and the last
/// commit, with no tag for the kind of change.
pub fn git_status(repo_path: String) -> (r: Result<Vec<String>, StoreError>)
    ensures
        r matches Err(e) ==> (e.stage == Stage::OpenRepository || e.stage == Stage::ReadStatus) && e.wf(),
{
    let repo = match repo_open(repo_path.as_str()) {
        Ok(repo) => repo,
        Err(e) => return Err(failure(Stage::OpenRepository, &e)),
    };
    let statuses = match repo_statuses(&repo) {
        Ok(st) => st,
        Err(e) => return Err(failure(Stage::ReadStatus, &e)),
    };
    let n = statuses_len(&statuses);
    let mut reported: Vec<Option<String>> = Vec::new();
    let mut i: usize = 0;
    while i < n
        decreases n - i,
    {
        if let Some(entry) = statuses_get(&statuses, i) {
            reported.push(status_entry_path(&entry));
        }
        i = i + 1;
    }
    Ok(present_paths(reported))
}

/// Up to `max_count` commits, starting at the head commit and walking back
/// through its ancestry, most recent first. A repository with no commits
/// yet has an empty log.
pub fn git_log(repo_path: String, max_count: usize) -> (r: Result<Vec<CommitInfo>, StoreError>)
    ensures
        r matches Ok(v) ==> v@.len() <= max_count,
        r matches Ok(v) ==> forall|i: int| 0 <= i < v@.len() ==> is_commit_id(#[trigger] v@[i].id@),
        r matches Err(e) ==> log_stage(e.stage) && e.wf(),
{
    let repo = match repo_open(repo_path.as_str()) {
        Ok(repo) => repo,
        Err(e) => return Err(failure(Stage::OpenRepository, &e)),
    };
    let is_empty = match repo_is_empty(&repo) {
        Ok(b) => b,
        Err(e) => return Err(failure(Stage::CheckEmpty, &e)),
    };
    if let Some(empty_log) = log_start(is_empty) {
        return Ok(empty_log);
    }
    let mut walk = match new_revwalk(&repo) {
        Ok(w) => w,
        Err(e) => return Err(failure(Stage::StartWalk, &e)),
    };
    if let Err(e) = walk_push_head(&mut walk) {
        return Err(failure(Stage::StartWalk, &e));
    }
    let mut commits: Vec<CommitInfo> = Vec::new();
    while commits.len() < max_count
        invariant
            commits@.len() <= max_count,
            forall|i: int| 0 <= i < commits@.len() ==> is_commit_id(#[trigger] commits@[i].id@),
        decreases max_count - commits@.len(),
    {
        let id = match walk_next(&mut walk) {
            None => break,
            Some(Ok(id)) => id,
            Some(Err(e)) => return Err(failure(Stage::WalkStep, &e)),
        };
        let c = match find_commit(&repo, id) {
            Ok(c) => c,
            Err(e) => return Err(failure(Stage::FindCommit, &e)),
        };
        let own_id = commit_id(&c);
        let author = commit_author(&c);
        let time = signature_when(&author);
        let rec = record_from_parts(
            oid_text(&own_id),
            commit_message(&c),
            signature_name(&author),
            time_seconds(&time),
        );
        commits.push(rec);
    }
    Ok(commits)
}

/// The statistics block (files changed, insertions, deletions) of the
/// changes from the head commit's tree to the working tree, restricted to
/// `file_path` when one is given, formatted at `DIFF_WIDTH` columns. A filter
/// holding a NUL character is refused before the repository is opened.
pub fn git_diff(repo_path: String, file_path: Option<String>) -> (r: Result<String, StoreError>)
    ensures
        r matches Err(e) ==> diff_stage(e.stage) && e.wf(),
        (file_path matches Some(p) && p@.contains('\0'))
            <==> (r matches Err(e) && e.stage == Stage::PathFilter),
{
    if let Some(p) = &file_path {
        if has_nul(p) {
            return Err(StoreError::at(Stage::PathFilter, String::from_str("the path filter holds a NUL character")));
        }
    }
    let repo = match repo_open(repo_path.as_str()) {
        Ok(repo) => repo,
        Err(e) => return Err(failure(Stage::OpenRepository, &e)),
    };
    let head = match repo_head(&repo) {
        Ok(h) => h,
        Err(e) => return Err(failure(Stage::HeadTree, &e)),
    };
    let tree = match peel_to_tree(&head) {
        Ok(t) => t,
        Err(e) => return Err(failure(Stage::HeadTree, &e)),
    };
    let mut opts = diff_options_new();
    if let Some(p) = &file_path {
        diff_options_pathspec(&mut opts, p.as_str());
    }
    let diff = match diff_tree_to_workdir(&repo, &tree, &mut opts) {
        Ok(d) => d,
        Err(e) => return Err(failure(Stage::ComputeDiff, &e)),
    };
    let stats = match diff_stats(&diff) {
        Ok(st) => st,
        Err(e) => return Err(failure(Stage::FormatDiff, &e)),
    };
    let buf = match stats_full_text(&stats, DIFF_WIDTH) {
        Ok(b) => b,
        Err(e) => return Err(failure(Stage::FormatDiff, &e)),
    };
    Ok(summary_text(buf_text(&buf)))
}

/// The content of `file_path` as commit `commit_id` recorded it. A malformed
/// id fails before the repository is opened; a commit that does not exist,
/// or one that does not hold the path, fails as not found.
pub fn read_file_version(repo_path: String, file_path: String, commit_id: String)
    -> (r: Result<Vec<u8>, StoreError>)
    ensures
        r matches Err(e) ==> version_stage(e.stage) && e.wf(),
        !is_oid_text(commit_id@) <==> (r matches Err(e) && e.stage == Stage::ParseCommitId),
{
    let oid = match parse_oid(commit_id.as_str()) {
        Ok(oid) => oid,
        Err(e) => return Err(failure(Stage::ParseCommitId, &e)),
    };
    let repo = match repo_open(repo_path.as_str()) {
        Ok(repo) => repo,
        Err(e) => return Err(failure(Stage::OpenRepository, &e)),
    };
    let c = match find_commit(&repo, oid) {
        Ok(c) => c,
        Err(e) => return Err(failure(Stage::FindCommit, &e)),
    };
    let tree = match commit_tree(&c) {
        Ok(t) => t,
        Err(e) => return Err(failure(Stage::CommitTree, &e)),
    };
    let entry = match tree_get_path(&tree, file_path.as_str()) {
        Ok(entry) => entry,
        Err(e) => return Err(failure(Stage::PathInCommit, &e)),
    };
    let blob = match find_blob(&repo, tree_entry_id(&entry)) {
        Ok(blob) => blob,
        Err(e) => return Err(failure(Stage::ReadBlob, &e)),
    };
    Ok(blob_content(&blob))
}

} // verus!
