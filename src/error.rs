//! Failures of the store, tagged with the step that failed and its kind.
use vstd::prelude::*;

verus! {

/// The kind of a failure, as the caller sees it.
#[derive(Debug, Clone, Copy, PartialEq, Eq, Structural)]
pub enum ErrorKind {
    /// A filesystem failure.
    Io,
    /// A repository-level failure.
    Vcs,
    /// A referenced commit, or a path inside a commit, does not exist.
    NotFound,
    /// A supplied commit identifier is not well formed.
    InvalidId,
}

/// The step of an operation that failed.
#[derive(Debug, Clone, Copy, PartialEq, Eq, Structural)]
pub enum Stage {
    // Repository metadata.
    InitRepository,
    OpenRepository,
    // Commit.
    CreateSignature,
    CheckEmpty,
    OpenIndex,
    StageFiles,
    WriteIndex,
    WriteTree,
    FindTree,
    ParentCommit,
    CreateCommit,
    // Status and log.
    ReadStatus,
    StartWalk,
    WalkStep,
    FindCommit,
    // Diff summary.
    PathFilter,
    HeadTree,
    ComputeDiff,
    FormatDiff,
    // Reading a historical file version.
    ParseCommitId,
    CommitTree,
    PathInCommit,
    ReadBlob,
}

/// The kind under which a failure at `stage` is reported.
pub open spec fn stage_kind(stage: Stage) -> ErrorKind {
    match stage {
        Stage::ParseCommitId => ErrorKind::InvalidId,
        Stage::FindCommit => ErrorKind::NotFound,
        Stage::PathInCommit => ErrorKind::NotFound,
        _ => ErrorKind::Vcs,
    }
}

/// A failure: its kind, the step that failed, and the underlying cause as text.
#[derive(Debug, Clone)]
pub struct StoreError {
    pub kind: ErrorKind,
    pub stage: Stage,
    pub cause: String,
}

impl StoreError {
    /// Well formed: the kind is the one that the stage is reported under.
    pub open spec fn wf(&self) -> bool {
        self.kind == stage_kind(self.stage)
    }

    /// A failure at `stage` with the given cause.
    pub fn at(stage: Stage, cause: String) -> (r: StoreError)
        ensures
            r.stage == stage,
            r.kind == stage_kind(stage),
            r.cause@ == cause@,
            r.wf(),
    {
        let kind = match stage {
            Stage::ParseCommitId => ErrorKind::InvalidId,
            Stage::FindCommit => ErrorKind::NotFound,
            Stage::PathInCommit => ErrorKind::NotFound,
            _ => ErrorKind::Vcs,
        };
        StoreError { kind, stage, cause }
    }
}

} // verus!
