//! A versioned document store: plain file listings plus the history
//! operations (commit, status, log, diff, point-in-time restore) of a
//! repository rooted at a project directory.

pub mod error;
pub mod listing;
pub mod record;
pub mod vcs;
pub mod history;
pub mod readiness;

pub use error::{ErrorKind, Stage, StoreError};
pub use listing::{FileInfo, DirEntryFacts, listing_from_entries};
pub use record::{CommitInfo, record_from_parts};
pub use readiness::{ProbeAction, after_attempt, next_delay, MAX_DELAY_MS};
pub use history::{
    init_git_repo, git_commit, git_status, git_log, git_diff, read_file_version, present_paths,
    commit_parent, log_start, summary_text, has_nul,
    DIFF_WIDTH,
};
