use doc_store::{
    git_commit, git_diff, git_log, git_status, init_git_repo, read_file_version, ErrorKind, Stage,
};
use std::io::Write;
use std::path::PathBuf;
use tempfile::{NamedTempFile, TempDir};

fn fresh_repo() -> (TempDir, String) {
    let dir = tempfile::tempdir().unwrap();
    let root = dir.path().to_string_lossy().to_string();
    init_git_repo(root.clone()).unwrap();
    (dir, root)
}

fn put(root: &str, rel: &str, content: &str) {
    let mut f = NamedTempFile::new_in(root).unwrap();
    f.write_all(content.as_bytes()).unwrap();
    f.persist(PathBuf::from(root).join(rel)).unwrap();
}

fn commit(root: &str, message: &str) -> String {
    git_commit(root.to_string(), message.to_string(), "Ann".to_string(), "ann@example.com".to_string())
        .unwrap()
}

#[test]
fn init_twice_keeps_history() {
    let (_dir, root) = fresh_repo();
    put(&root, "a.txt", "one");
    let id = commit(&root, "first");
    assert!(init_git_repo(root.clone()).is_ok());
    let log = git_log(root.clone(), 10).unwrap();
    assert_eq!(log.len(), 1);
    assert_eq!(log[0].id, id);
}

#[test]
fn commit_id_is_forty_hex_digits() {
    let (_dir, root) = fresh_repo();
    put(&root, "a.txt", "one");
    let id = commit(&root, "first");
    assert_eq!(id.len(), 40);
    assert!(id.chars().all(|c| c.is_ascii_digit() || ('a'..='f').contains(&c)));
}

#[test]
fn two_commits_log_most_recent_first() {
    let (_dir, root) = fresh_repo();
    put(&root, "a.txt", "one");
    let c1 = commit(&root, "first");
    put(&root, "a.txt", "two");
    let c2 = commit(&root, "second");
    let log = git_log(root.clone(), 2).unwrap();
    assert_eq!(log.len(), 2);
    assert_ne!(log[0].id, log[1].id);
    assert_eq!(log[0].id, c2);
    assert_eq!(log[1].id, c1);
    assert_eq!(log[0].message, "second");
    assert_eq!(log[1].message, "first");
    assert_eq!(log[0].author, "Ann");
    assert!(log[0].timestamp > 0);
}

#[test]
fn log_is_bounded_by_max_count() {
    let (_dir, root) = fresh_repo();
    put(&root, "a.txt", "one");
    commit(&root, "first");
    put(&root, "a.txt", "two");
    commit(&root, "second");
    put(&root, "a.txt", "three");
    commit(&root, "third");
    assert_eq!(git_log(root.clone(), 2).unwrap().len(), 2);
    assert_eq!(git_log(root.clone(), 0).unwrap().len(), 0);
    assert_eq!(git_log(root.clone(), 10).unwrap().len(), 3);
}

#[test]
fn log_of_empty_repository_is_empty() {
    let (_dir, root) = fresh_repo();
    let log = git_log(root, 5).unwrap();
    assert!(log.is_empty());
}

#[test]
fn restore_reads_old_version() {
    let (_dir, root) = fresh_repo();
    put(&root, "f.txt", "v1");
    let c1 = commit(&root, "v1");
    put(&root, "f.txt", "v2");
    commit(&root, "v2");
    let bytes = read_file_version(root.clone(), "f.txt".to_string(), c1).unwrap();
    assert_eq!(bytes, b"v1".to_vec());
}

#[test]
fn restore_of_missing_path_is_not_found() {
    let (_dir, root) = fresh_repo();
    put(&root, "f.txt", "v1");
    let c1 = commit(&root, "v1");
    let err = read_file_version(root.clone(), "missing.txt".to_string(), c1).unwrap_err();
    assert_eq!(err.kind, ErrorKind::NotFound);
    assert_eq!(err.stage, Stage::PathInCommit);
}

#[test]
fn restore_with_malformed_id_is_invalid() {
    let (_dir, root) = fresh_repo();
    put(&root, "f.txt", "v1");
    commit(&root, "v1");
    let err = read_file_version(root.clone(), "f.txt".to_string(), "xyz".to_string()).unwrap_err();
    assert_eq!(err.kind, ErrorKind::InvalidId);
    let err = read_file_version(root, "f.txt".to_string(), String::new()).unwrap_err();
    assert_eq!(err.kind, ErrorKind::InvalidId);
}

#[test]
fn restore_with_unknown_commit_is_not_found() {
    let (_dir, root) = fresh_repo();
    put(&root, "f.txt", "v1");
    commit(&root, "v1");
    let unknown = "0123456789012345678901234567890123456789".to_string();
    let err = read_file_version(root, "f.txt".to_string(), unknown).unwrap_err();
    assert_eq!(err.kind, ErrorKind::NotFound);
    assert_eq!(err.stage, Stage::FindCommit);
}

#[test]
fn status_reports_changed_paths() {
    let (_dir, root) = fresh_repo();
    put(&root, "a.txt", "one");
    put(&root, "b.txt", "one");
    commit(&root, "first");
    assert!(git_status(root.clone()).unwrap().is_empty());
    put(&root, "a.txt", "changed");
    let changed = git_status(root).unwrap();
    assert_eq!(changed, vec!["a.txt".to_string()]);
}

#[test]
fn diff_summarises_changes() {
    let (_dir, root) = fresh_repo();
    put(&root, "a.txt", "one\n");
    commit(&root, "first");
    put(&root, "a.txt", "one\ntwo\n");
    let text = git_diff(root.clone(), None).unwrap();
    assert!(text.contains("1 file changed"));
    assert!(text.contains("1 insertion"));
    let filtered = git_diff(root, Some("other.txt".to_string())).unwrap();
    assert!(!filtered.contains("a.txt"));
}

#[test]
fn operations_on_missing_repository_fail_as_vcs() {
    let dir = tempfile::tempdir().unwrap();
    let root = dir.path().to_string_lossy().to_string();
    let err = git_log(root.clone(), 3).unwrap_err();
    assert_eq!(err.kind, ErrorKind::Vcs);
    assert_eq!(err.stage, Stage::OpenRepository);
    let err = git_commit(root, "m".to_string(), "Ann".to_string(), "a@b.c".to_string()).unwrap_err();
    assert_eq!(err.kind, ErrorKind::Vcs);
}

#[test]
fn commit_with_empty_author_fails_at_signature() {
    let (_dir, root) = fresh_repo();
    put(&root, "a.txt", "one");
    let err = git_commit(root, "m".to_string(), String::new(), String::new()).unwrap_err();
    assert_eq!(err.kind, ErrorKind::Vcs);
    assert_eq!(err.stage, Stage::CreateSignature);
}

#[test]
fn diff_without_commits_fails_at_head() {
    let (_dir, root) = fresh_repo();
    let err = git_diff(root, None).unwrap_err();
    assert_eq!(err.stage, Stage::HeadTree);
}

#[test]
fn first_commit_has_no_parent_and_log_starts_there() {
    let (_dir, root) = fresh_repo();
    put(&root, "a.txt", "one");
    let id = commit(&root, "only");
    let log = git_log(root, 5).unwrap();
    assert_eq!(log.len(), 1);
    assert_eq!(log[0].id, id);
    assert_eq!(log[0].message, "only");
}

#[test]
fn diff_refuses_filter_with_nul() {
    let (_dir, root) = fresh_repo();
    put(&root, "a.txt", "one\n");
    commit(&root, "first");
    let err = git_diff(root, Some("a\0b".to_string())).unwrap_err();
    assert_eq!(err.stage, Stage::PathFilter);
    assert_eq!(err.kind, ErrorKind::Vcs);
}

#[test]
fn log_of_empty_repository_is_empty_for_any_count() {
    let (_dir, root) = fresh_repo();
    assert!(git_log(root.clone(), 0).unwrap().is_empty());
    assert!(git_log(root, usize::MAX).unwrap().is_empty());
}

#[test]
fn second_commit_follows_the_first() {
    let (_dir, root) = fresh_repo();
    put(&root, "a.txt", "one");
    let c1 = commit(&root, "first");
    put(&root, "b.txt", "two");
    let c2 = commit(&root, "second");
    let log = git_log(root, usize::MAX).unwrap();
    assert_eq!(log.len(), 2);
    assert_eq!(log[0].id, c2);
    assert_eq!(log[1].id, c1);
}
