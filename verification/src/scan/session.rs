//! The scan as a session: it names the next request, and is advanced with the
//! reply.

use crate::clock::uuid;
use crate::message::{not_a_directory_text, path_missing_text, read_failed_text};
use crate::scan::model::{scanned, unmarked, ScanModel, ScanPhaseModel, ScanReply, ScanRequest};
use crate::scan::record::{
    format_tag, photo_record, record_of, DirEntry, DirEntryModel, PhotoInfo, PhotoInfoModel,
};
use vstd::prelude::*;
use vstd::string::*;

verus! {

/// Whether an entry has a record, whatever its identifier.
pub fn has_record(entry: &DirEntry) -> (kept: bool)
    ensures
        kept == record_of(entry@, Seq::empty()).is_some(),
{
    entry.is_file && entry.meta.is_some() && format_tag(entry.name.as_str()).is_some()
}

/// The records of the entries that have one, in the order of the entries, each
/// under an identifier drawn from the clock when the record is made.
pub fn collect_photos(entries: &Vec<DirEntry>) -> (records: Vec<PhotoInfo>)
    ensures
        scanned(entries.deep_view(), records.deep_view()),
{
    let mut records: Vec<PhotoInfo> = Vec::new();
    let mut i: usize = 0;
    assert(entries.deep_view().take(0) =~= Seq::<DirEntryModel>::empty());
    assert(unmarked(records.deep_view()) =~= Seq::<PhotoInfoModel>::empty());
    while i < entries.len()
        invariant
            i <= entries.len(),
            scanned(entries.deep_view().take(i as int), records.deep_view()),
        decreases entries.len() - i,
    {
        let ghost before = records.deep_view();
        let ghost seen = entries.deep_view().take(i as int);
        let ghost grown = entries.deep_view().take(i + 1);
        proof {
            assert(grown.drop_last() =~= seen);
            assert(grown.last() == entries[i as int]@);
        }
        if has_record(&entries[i]) {
            let id = uuid();
            match photo_record(&entries[i], id) {
                Some(record) => {
                    records.push(record);
                    proof {
                        let after = records.deep_view();
                        assert(after =~= before.push(record@));
                        assert(unmarked(after) =~= unmarked(before).push(
                            record_of(entries[i as int]@, Seq::empty()).unwrap(),
                        ));
                    }
                },
                None => {},
            }
        }
        i += 1;
    }
    assert(entries.deep_view().take(entries.len() as int) =~= entries.deep_view());
    records
}

/// Where a scan stands; see [`ScanPhaseModel`].
enum Phase {
    Probing,
    Reading,
    Done(Vec<PhotoInfo>),
    Failed(String),
}

impl Phase {
    /// What the phase stands for.
    spec fn model(self) -> ScanPhaseModel {
        match self {
            Phase::Probing => ScanPhaseModel::Probing,
            Phase::Reading => ScanPhaseModel::Reading,
            Phase::Done(records) => ScanPhaseModel::Done(records.deep_view()),
            Phase::Failed(error) => ScanPhaseModel::Failed(error@),
        }
    }
}

/// A scan in progress.
///
/// The caller performs [`Self::request`], passes what it found to
/// [`Self::step`], and goes on until the request is `Finished`; then
/// [`Self::outcome`] holds the records or the error. Only the entries that
/// stand directly in the directory are looked at, and the records keep the
/// order in which the directory gave them.
pub struct Scan {
    path: String,
    phase: Phase,
}

impl View for Scan {
    type V = ScanModel;

    closed spec fn view(&self) -> ScanModel {
        ScanModel { path: self.path@, phase: self.phase.model() }
    }
}

/// What a report stands for.
pub open spec fn report_model(report: Option<Result<Vec<PhotoInfo>, String>>) -> Option<
    Result<Seq<PhotoInfoModel>, Seq<char>>,
> {
    match report {
        Some(Ok(records)) => Some(Ok(records.deep_view())),
        Some(Err(error)) => Some(Err(error@)),
        None => None,
    }
}

impl Scan {
    /// Begins the scan of the directory at `path`.
    pub fn new(path: String) -> (session: Scan)
        ensures
            session@ == ScanModel::start(path@),
    {
        Scan { path, phase: Phase::Probing }
    }

    /// The request that is out, as [`ScanModel::request`] states it.
    pub fn request(&self) -> (request: ScanRequest)
        ensures
            request@ == self@.request(),
    {
        match &self.phase {
            Phase::Probing => ScanRequest::Probe(self.path.clone()),
            Phase::Reading => ScanRequest::ReadDir(self.path.clone()),
            Phase::Done(records) => ScanRequest::Finished,
            Phase::Failed(error) => ScanRequest::Finished,
        }
    }

    /// Whether the scan is over: its request is `Finished`.
    pub fn is_finished(&self) -> (finished: bool)
        ensures
            finished == self@.outcome().is_some(),
            finished == (self@.request() is Finished),
    {
        match &self.phase {
            Phase::Done(records) => true,
            Phase::Failed(error) => true,
            _ => false,
        }
    }

    /// The state after `reply`, as [`ScanModel::steps_to`] states it.
    pub fn step(self, reply: ScanReply) -> (next: Scan)
        ensures
            self@.steps_to(reply@, next@),
    {
        let mut scan = self;
        match scan.phase {
            Phase::Probing => match reply {
                ScanReply::Probed { exists, is_dir } => {
                    if !exists {
                        scan.phase = Phase::Failed(path_missing_text());
                    } else if !is_dir {
                        scan.phase = Phase::Failed(not_a_directory_text());
                    } else {
                        scan.phase = Phase::Reading;
                    }
                    scan
                },
                _ => scan,
            },
            Phase::Reading => match reply {
                ScanReply::Listed(entries) => {
                    scan.phase = Phase::Done(collect_photos(&entries));
                    scan
                },
                ScanReply::Failed(error) => {
                    scan.phase = Phase::Failed(read_failed_text(error.as_str()));
                    scan
                },
                _ => scan,
            },
            Phase::Done(records) => {
                scan.phase = Phase::Done(records);
                scan
            },
            Phase::Failed(error) => {
                scan.phase = Phase::Failed(error);
                scan
            },
        }
    }

    /// The report of a scan that is over, as [`ScanModel::outcome`] states it;
    /// `None` before that.
    pub fn outcome(self) -> (report: Option<Result<Vec<PhotoInfo>, String>>)
        ensures
            report_model(report) == self@.outcome(),
    {
        match self.phase {
            Phase::Done(records) => Some(Ok(records)),
            Phase::Failed(error) => Some(Err(error)),
            _ => None,
        }
    }
}

} // verus!
