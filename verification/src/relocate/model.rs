//! The relocation as a state machine over plain values.

use crate::message::{
    create_failed, move_failed, no_file_name, root_unavailable, root_without_parent,
    source_not_removed, source_outside, source_unavailable,
};
use crate::outcome::{MoveFailureModel, MoveResultModel, ReplyModel, RequestModel};
use crate::path::FilePathModel;
use crate::probe::{candidate_path, falls_back, search_step, NameSearchModel};
use vstd::prelude::*;

verus! {

/// Where a relocation stands: which request is out, and what it is about.
pub enum PhaseModel {
    /// The containment directory is being resolved.
    ResolvingRoot,
    /// The destination directory is being created.
    CreatingDest,
    /// The current source path is being resolved.
    ResolvingSource,
    /// The candidate name of number `attempt` is being probed for the current
    /// file, whose canonical path is `source` and whose name is `name`.
    Probing { source: FilePathModel, name: Seq<char>, attempt: nat },
    /// The current file is being renamed to `dest`.
    Renaming { source: FilePathModel, dest: FilePathModel },
    /// The rename failed with `rename_error`; the file is being copied to `dest`.
    Copying { source: FilePathModel, dest: FilePathModel, rename_error: Seq<char> },
    /// The copy stands; the source is being deleted.
    Removing { source: FilePathModel },
    /// Every source path was attempted.
    Done,
    /// The relocation could not be set up.
    Aborted(Seq<char>),
}

/// The state of a relocation.
pub struct RelocationModel {
    /// The source paths, as the caller gave them.
    pub paths: Seq<Seq<char>>,
    /// The containment directory, as the caller gave it.
    pub import_dir: Seq<char>,
    /// The name of the folder beside the containment directory.
    pub sibling: Seq<char>,
    /// The canonical containment directory, once it is resolved.
    pub root: FilePathModel,
    /// The destination directory, once it is known.
    pub dest_dir: FilePathModel,
    /// How many source paths are settled: the next to handle has this position.
    pub index: nat,
    /// How many files were moved.
    pub moved: nat,
    /// The files that were not moved.
    pub failed: Seq<MoveFailureModel>,
    pub phase: PhaseModel,
}

/// The path of each failure.
pub open spec fn failed_paths(failed: Seq<MoveFailureModel>) -> Seq<Seq<char>> {
    Seq::new(failed.len(), |i: int| failed[i].path)
}

/// Whether `sub` is `full` with some items left out, the rest in their order.
pub open spec fn is_subsequence(sub: Seq<Seq<char>>, full: Seq<Seq<char>>) -> bool
    decreases full.len(),
{
    if sub.len() == 0 {
        true
    } else if full.len() == 0 {
        false
    } else {
        (sub.last() == full.last() && is_subsequence(sub.drop_last(), full.drop_last()))
            || is_subsequence(sub, full.drop_last())
    }
}

impl RelocationModel {
    /// The state in which a relocation begins.
    pub open spec fn start(paths: Seq<Seq<char>>, import_dir: Seq<char>, sibling: Seq<char>) -> Self {
        RelocationModel {
            paths,
            import_dir,
            sibling,
            root: FilePathModel { anchor: Seq::empty(), parts: Seq::empty() },
            dest_dir: FilePathModel { anchor: Seq::empty(), parts: Seq::empty() },
            index: 0,
            moved: 0,
            failed: Seq::empty(),
            phase: PhaseModel::ResolvingRoot,
        }
    }

    /// The phase in which the file at position `index` is taken up, or `Done`
    /// past the last.
    pub open spec fn phase_at(self, index: nat) -> PhaseModel {
        if index < self.paths.len() {
            PhaseModel::ResolvingSource
        } else {
            PhaseModel::Done
        }
    }

    /// The setup is done: the first file is taken up.
    pub open spec fn begin_files(self) -> Self {
        RelocationModel { phase: self.phase_at(0), ..self }
    }

    /// The current file is counted as moved, and the next is taken up.
    pub open spec fn count_moved(self) -> Self {
        RelocationModel {
            moved: self.moved + 1,
            index: self.index + 1,
            phase: self.phase_at(self.index + 1),
            ..self
        }
    }

    /// The current file is listed as failed, and the next is taken up.
    pub open spec fn list_failed(self, reason: Seq<char>) -> Self {
        RelocationModel {
            failed: self.failed.push(
                MoveFailureModel { path: self.paths[self.index as int], reason },
            ),
            index: self.index + 1,
            phase: self.phase_at(self.index + 1),
            ..self
        }
    }

    /// The relocation ends with a setup error.
    pub open spec fn abort(self, error: Seq<char>) -> Self {
        RelocationModel { phase: PhaseModel::Aborted(error), ..self }
    }

    /// The request that is out in this state.
    pub open spec fn request(self) -> RequestModel {
        match self.phase {
            PhaseModel::ResolvingRoot => RequestModel::Canonicalize(self.import_dir),
            PhaseModel::CreatingDest => RequestModel::CreateDirAll(self.dest_dir),
            PhaseModel::ResolvingSource => RequestModel::Canonicalize(self.paths[self.index as int]),
            PhaseModel::Probing { source, name, attempt } => RequestModel::Exists(
                candidate_path(self.dest_dir, name, attempt),
            ),
            PhaseModel::Renaming { source, dest } => RequestModel::Rename { from: source, to: dest },
            PhaseModel::Copying { source, dest, rename_error } => RequestModel::Copy {
                from: source,
                to: dest,
            },
            PhaseModel::Removing { source } => RequestModel::RemoveFile(source),
            PhaseModel::Done => RequestModel::Finished,
            PhaseModel::Aborted(error) => RequestModel::Finished,
        }
    }

    /// Whether `reply` is an answer to the request that is out.
    pub open spec fn answers(self, reply: ReplyModel) -> bool {
        match self.phase {
            PhaseModel::ResolvingRoot | PhaseModel::ResolvingSource => reply is Resolved
                || reply is Failed,
            PhaseModel::Probing { .. } => reply is Exists,
            PhaseModel::CreatingDest
            | PhaseModel::Renaming { .. }
            | PhaseModel::Copying { .. }
            | PhaseModel::Removing { .. } => reply is Done || reply is Failed,
            PhaseModel::Done | PhaseModel::Aborted(_) => false,
        }
    }

    /// The state after `reply`.
    ///
    /// A reply that does not answer the request that is out changes nothing.
    /// `suffix` is used only where the search for a name falls back.
    pub open spec fn step(self, reply: ReplyModel, suffix: Seq<char>) -> Self {
        match self.phase {
            PhaseModel::ResolvingRoot => match reply {
                ReplyModel::Resolved(root) => match root.parent() {
                    Some(parent) => RelocationModel {
                        root,
                        dest_dir: parent.join(self.sibling),
                        phase: PhaseModel::CreatingDest,
                        ..self
                    },
                    None => self.abort(root_without_parent()),
                },
                ReplyModel::Failed(error) => self.abort(root_unavailable(error)),
                _ => self,
            },
            PhaseModel::CreatingDest => match reply {
                ReplyModel::Done => self.begin_files(),
                ReplyModel::Failed(error) => self.abort(create_failed(self.dest_dir, error)),
                _ => self,
            },
            PhaseModel::ResolvingSource => match reply {
                ReplyModel::Resolved(source) => if !source.starts_with(self.root) {
                    self.list_failed(source_outside())
                } else {
                    match source.file_name() {
                        Some(name) => RelocationModel {
                            phase: PhaseModel::Probing { source, name, attempt: 0 },
                            ..self
                        },
                        None => self.list_failed(no_file_name()),
                    }
                },
                ReplyModel::Failed(error) => self.list_failed(source_unavailable(error)),
                _ => self,
            },
            PhaseModel::Probing { source, name, attempt } => match reply {
                ReplyModel::Exists(taken) => match search_step(
                    self.dest_dir,
                    name,
                    attempt,
                    taken,
                    suffix,
                ) {
                    NameSearchModel::Probe { attempt: next, path } => RelocationModel {
                        phase: PhaseModel::Probing { source, name, attempt: next },
                        ..self
                    },
                    NameSearchModel::Chosen(dest) => RelocationModel {
                        phase: PhaseModel::Renaming { source, dest },
                        ..self
                    },
                },
                _ => self,
            },
            PhaseModel::Renaming { source, dest } => match reply {
                ReplyModel::Done => self.count_moved(),
                ReplyModel::Failed(error) => RelocationModel {
                    phase: PhaseModel::Copying { source, dest, rename_error: error },
                    ..self
                },
                _ => self,
            },
            PhaseModel::Copying { source, dest, rename_error } => match reply {
                ReplyModel::Done => RelocationModel { phase: PhaseModel::Removing { source }, ..self },
                ReplyModel::Failed(error) => self.list_failed(move_failed(rename_error, error)),
                _ => self,
            },
            PhaseModel::Removing { source } => match reply {
                ReplyModel::Done => self.count_moved(),
                ReplyModel::Failed(error) => self.list_failed(source_not_removed(error)),
                _ => self,
            },
            PhaseModel::Done => self,
            PhaseModel::Aborted(error) => self,
        }
    }

    /// Whether the step for `reply` falls back to a clock suffix: only then does
    /// [`Self::step`] read its `suffix`.
    pub open spec fn needs_suffix(self, reply: ReplyModel) -> bool {
        match self.phase {
            PhaseModel::Probing { source, name, attempt } => match reply {
                ReplyModel::Exists(taken) => falls_back(attempt, taken),
                _ => false,
            },
            _ => false,
        }
    }

    /// What the relocation reports, once it is over.
    pub open spec fn outcome(self) -> Option<Result<MoveResultModel, Seq<char>>> {
        match self.phase {
            PhaseModel::Done => Some(
                Ok(MoveResultModel { moved_count: self.moved, failures: self.failed }),
            ),
            PhaseModel::Aborted(error) => Some(Err(error)),
            _ => None,
        }
    }

    /// Whether a file is in hand: its source path is the one at `index`.
    pub open spec fn in_file(self) -> bool {
        match self.phase {
            PhaseModel::ResolvingSource
            | PhaseModel::Probing { .. }
            | PhaseModel::Renaming { .. }
            | PhaseModel::Copying { .. }
            | PhaseModel::Removing { .. } => true,
            _ => false,
        }
    }

    /// What holds of every state that a relocation reaches.
    ///
    /// - Each settled path is either counted or listed, never both.
    /// - The listed paths are settled source paths, in the order given.
    /// - A file in hand is one of the source paths; once the relocation is
    ///   done, every path is settled.
    /// - Nothing is settled before the setup is done, nor after it failed.
    pub open spec fn inv(self) -> bool {
        &&& self.index <= self.paths.len()
        &&& self.moved + self.failed.len() == self.index
        &&& is_subsequence(failed_paths(self.failed), self.paths.take(self.index as int))
        &&& self.in_file() ==> self.index < self.paths.len()
        &&& self.phase is Done ==> self.index == self.paths.len()
        &&& (self.phase is ResolvingRoot || self.phase is CreatingDest || self.phase is Aborted)
            ==> self.index == 0
    }
}

} // verus!
