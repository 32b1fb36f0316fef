//! One commit of a project's history, as the log reports it.
use vstd::prelude::*;

verus! {

/// One historical commit.
#[derive(Debug, Clone)]
pub struct CommitInfo {
    /// The commit's id, in hexadecimal.
    pub id: String,
    pub message: String,
    pub author: String,
    /// The author time (not the committer time), in seconds since the epoch.
    pub timestamp: i64,
}

/// The text of an optional field, empty when it is absent.
pub open spec fn text_or_empty(t: Option<String>) -> Seq<char> {
    match t {
        Some(s) => s@,
        None => Seq::empty(),
    }
}

/// Builds the record of a commit from what the repository reports of it; an
/// absent message or author name becomes the empty string.
pub fn record_from_parts(
    id: String,
    message: Option<String>,
    author: Option<String>,
    timestamp: i64,
) -> (r: CommitInfo)
    ensures
        r.id@ == id@,
        r.message@ == text_or_empty(message),
        r.author@ == text_or_empty(author),
        r.timestamp == timestamp,
{
    let message = match message {
        Some(m) => m,
        None => String::new(),
    };
    let author = match author {
        Some(a) => a,
        None => String::new(),
    };
    CommitInfo { id, message, author, timestamp }
}

} // verus!
