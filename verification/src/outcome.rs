//! What a relocation reports, and the requests and replies of its protocol.

use crate::path::{FilePath, FilePathModel};
use vstd::prelude::*;

verus! {

/// One file that was not moved, and why.
pub struct MoveFailure {
    /// The source path as the caller gave it.
    pub path: String,
    /// The reason, for a person to read.
    pub reason: String,
}

/// What a [`MoveFailure`] stands for.
pub struct MoveFailureModel {
    pub path: Seq<char>,
    pub reason: Seq<char>,
}

impl View for MoveFailure {
    type V = MoveFailureModel;

    open spec fn view(&self) -> MoveFailureModel {
        MoveFailureModel { path: self.path@, reason: self.reason@ }
    }
}

impl DeepView for MoveFailure {
    type V = MoveFailureModel;

    open spec fn deep_view(&self) -> MoveFailureModel {
        self@
    }
}

/// The report of a relocation: how many files were moved, and the files that
/// were not, in the order in which they were given.
pub struct MoveResult {
    /// How many files were moved.
    pub moved_count: usize,
    /// The files that were not moved.
    pub failures: Vec<MoveFailure>,
}

/// What a [`MoveResult`] stands for.
pub struct MoveResultModel {
    pub moved_count: nat,
    pub failures: Seq<MoveFailureModel>,
}

impl View for MoveResult {
    type V = MoveResultModel;

    open spec fn view(&self) -> MoveResultModel {
        MoveResultModel {
            moved_count: self.moved_count as nat,
            failures: self.failures.deep_view(),
        }
    }
}

/// A file-system operation that a relocation asks its caller to perform.
pub enum Request {
    /// Resolve this path, as the caller of the relocation gave it, to its
    /// canonical form.
    Canonicalize(String),
    /// Create this directory and every missing directory above it.
    CreateDirAll(FilePath),
    /// Say whether anything exists at this path.
    Exists(FilePath),
    /// Rename `from` to `to`.
    Rename { from: FilePath, to: FilePath },
    /// Copy the contents of `from` to `to`.
    Copy { from: FilePath, to: FilePath },
    /// Delete this file.
    RemoveFile(FilePath),
    /// Nothing is left to do: the outcome can be taken.
    Finished,
}

/// What a [`Request`] stands for.
pub enum RequestModel {
    Canonicalize(Seq<char>),
    CreateDirAll(FilePathModel),
    Exists(FilePathModel),
    Rename { from: FilePathModel, to: FilePathModel },
    Copy { from: FilePathModel, to: FilePathModel },
    RemoveFile(FilePathModel),
    Finished,
}

impl View for Request {
    type V = RequestModel;

    open spec fn view(&self) -> RequestModel {
        match self {
            Request::Canonicalize(path) => RequestModel::Canonicalize(path@),
            Request::CreateDirAll(path) => RequestModel::CreateDirAll(path@),
            Request::Exists(path) => RequestModel::Exists(path@),
            Request::Rename { from, to } => RequestModel::Rename { from: from@, to: to@ },
            Request::Copy { from, to } => RequestModel::Copy { from: from@, to: to@ },
            Request::RemoveFile(path) => RequestModel::RemoveFile(path@),
            Request::Finished => RequestModel::Finished,
        }
    }
}

/// What the caller found when it performed a [`Request`].
pub enum Reply {
    /// The canonical form of the path that was to be resolved.
    Resolved(FilePath),
    /// Whether something exists at the path that was probed.
    Exists(bool),
    /// The operation succeeded and has nothing to report.
    Done,
    /// The operation failed, with the system's words for it.
    Failed(String),
}

/// What a [`Reply`] stands for.
pub enum ReplyModel {
    Resolved(FilePathModel),
    Exists(bool),
    Done,
    Failed(Seq<char>),
}

impl View for Reply {
    type V = ReplyModel;

    open spec fn view(&self) -> ReplyModel {
        match self {
            Reply::Resolved(path) => ReplyModel::Resolved(path@),
            Reply::Exists(taken) => ReplyModel::Exists(*taken),
            Reply::Done => ReplyModel::Done,
            Reply::Failed(error) => ReplyModel::Failed(error@),
        }
    }
}

} // verus!
