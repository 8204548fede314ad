//! The scan as a state machine over plain values.

use crate::clock::is_stamp;
use crate::message::{not_a_directory, path_missing, read_failed};
use crate::scan::record::{record_of, DirEntry, DirEntryModel, PhotoInfoModel};
use vstd::prelude::*;

verus! {

/// A file-system operation that a scan asks its caller to perform.
pub enum ScanRequest {
    /// Say whether the path exists and whether it is a directory.
    Probe(String),
    /// List the entries that stand directly in the directory.
    ReadDir(String),
    /// Nothing is left to do: the outcome can be taken.
    Finished,
}

/// What a [`ScanRequest`] stands for.
pub enum ScanRequestModel {
    Probe(Seq<char>),
    ReadDir(Seq<char>),
    Finished,
}

impl View for ScanRequest {
    type V = ScanRequestModel;

    open spec fn view(&self) -> ScanRequestModel {
        match self {
            ScanRequest::Probe(path) => ScanRequestModel::Probe(path@),
            ScanRequest::ReadDir(path) => ScanRequestModel::ReadDir(path@),
            ScanRequest::Finished => ScanRequestModel::Finished,
        }
    }
}

/// What the caller found when it performed a [`ScanRequest`].
pub enum ScanReply {
    /// What stands at the path.
    Probed { exists: bool, is_dir: bool },
    /// The entries of the directory, in the order in which it gave them.
    Listed(Vec<DirEntry>),
    /// The directory could not be read, with the system's words for it.
    Failed(String),
}

/// What a [`ScanReply`] stands for.
pub enum ScanReplyModel {
    Probed { exists: bool, is_dir: bool },
    Listed(Seq<DirEntryModel>),
    Failed(Seq<char>),
}

impl View for ScanReply {
    type V = ScanReplyModel;

    open spec fn view(&self) -> ScanReplyModel {
        match self {
            ScanReply::Probed { exists, is_dir } => ScanReplyModel::Probed {
                exists: *exists,
                is_dir: *is_dir,
            },
            ScanReply::Listed(entries) => ScanReplyModel::Listed(entries.deep_view()),
            ScanReply::Failed(error) => ScanReplyModel::Failed(error@),
        }
    }
}

/// Where a scan stands.
pub enum ScanPhaseModel {
    /// The path is being probed.
    Probing,
    /// The directory is being read.
    Reading,
    /// The scan is over, with these records.
    Done(Seq<PhotoInfoModel>),
    /// The scan is over, with this error.
    Failed(Seq<char>),
}

/// The state of a scan.
pub struct ScanModel {
    /// The directory, as the caller gave it.
    pub path: Seq<char>,
    pub phase: ScanPhaseModel,
}

/// The records of the entries that have one, in the order of the entries,
/// without their identifiers.
pub open spec fn catalog(entries: Seq<DirEntryModel>) -> Seq<PhotoInfoModel>
    decreases entries.len(),
{
    if entries.len() == 0 {
        Seq::empty()
    } else {
        let front = catalog(entries.drop_last());
        match record_of(entries.last(), Seq::empty()) {
            Some(record) => front.push(record),
            None => front,
        }
    }
}

/// The records without their identifiers.
pub open spec fn unmarked(records: Seq<PhotoInfoModel>) -> Seq<PhotoInfoModel> {
    Seq::new(records.len(), |i: int| PhotoInfoModel { id: Seq::empty(), ..records[i] })
}

/// Whether `records` is what a scan makes of `entries`: the catalog, each
/// record under an identifier drawn from the clock.
pub open spec fn scanned(entries: Seq<DirEntryModel>, records: Seq<PhotoInfoModel>) -> bool {
    &&& unmarked(records) == catalog(entries)
    &&& forall|i: int| 0 <= i < records.len() ==> is_stamp(#[trigger] records[i].id)
}

impl ScanModel {
    /// The state in which a scan begins.
    pub open spec fn start(path: Seq<char>) -> Self {
        ScanModel { path, phase: ScanPhaseModel::Probing }
    }

    /// The scan ends with an error.
    pub open spec fn fail(self, error: Seq<char>) -> Self {
        ScanModel { phase: ScanPhaseModel::Failed(error), ..self }
    }

    /// The request that is out in this state.
    pub open spec fn request(self) -> ScanRequestModel {
        match self.phase {
            ScanPhaseModel::Probing => ScanRequestModel::Probe(self.path),
            ScanPhaseModel::Reading => ScanRequestModel::ReadDir(self.path),
            ScanPhaseModel::Done(_) => ScanRequestModel::Finished,
            ScanPhaseModel::Failed(_) => ScanRequestModel::Finished,
        }
    }

    /// The state after the path was probed. The directory is read only where
    /// the path exists and is a directory.
    pub open spec fn probed(self, exists: bool, is_dir: bool) -> Self {
        if !exists {
            self.fail(path_missing())
        } else if !is_dir {
            self.fail(not_a_directory())
        } else {
            ScanModel { phase: ScanPhaseModel::Reading, ..self }
        }
    }

    /// Whether `next` can be the state after `reply`.
    ///
    /// A reply that does not answer the request that is out changes nothing.
    /// The state after a reply is fixed by it, but for the identifiers of the
    /// records.
    pub open spec fn steps_to(self, reply: ScanReplyModel, next: ScanModel) -> bool {
        match self.phase {
            ScanPhaseModel::Probing => match reply {
                ScanReplyModel::Probed { exists, is_dir } => next == self.probed(exists, is_dir),
                _ => next == self,
            },
            ScanPhaseModel::Reading => match reply {
                ScanReplyModel::Listed(entries) => {
                    &&& next.path == self.path
                    &&& next.phase is Done
                    &&& scanned(entries, next.phase->Done_0)
                },
                ScanReplyModel::Failed(error) => next == self.fail(read_failed(error)),
                _ => next == self,
            },
            _ => next == self,
        }
    }

    /// What the scan reports, once it is over.
    pub open spec fn outcome(self) -> Option<Result<Seq<PhotoInfoModel>, Seq<char>>> {
        match self.phase {
            ScanPhaseModel::Done(records) => Some(Ok(records)),
            ScanPhaseModel::Failed(error) => Some(Err(error)),
            _ => None,
        }
    }
}

} // verus!
