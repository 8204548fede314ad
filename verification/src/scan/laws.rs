//! What holds of every scan.

use crate::message::path_missing;
use crate::name::extension;
use crate::scan::model::{
    catalog, scanned, unmarked, ScanModel, ScanReplyModel, ScanRequestModel,
};
use crate::scan::record::{format_of, is_supported, record_of, DirEntryModel, PhotoInfoModel};
use crate::text::{lower_char, lowercase};
use vstd::prelude::*;

verus! {

/// Folding a text that is folded changes nothing.
pub proof fn lemma_lowercase_idempotent(s: Seq<char>)
    ensures
        lowercase(lowercase(s)) == lowercase(s),
{
    assert forall|i: int| 0 <= i < s.len() implies lower_char(lower_char(s[i])) == lower_char(
        s[i],
    ) by {
        let c = s[i];
        if 'A' <= c && c <= 'Z' {
            let folded = lower_char(c);
            assert(folded as u8 == (c as u8) + 32);
            assert(!('A' <= folded && folded <= 'Z'));
        }
    }
    assert(lowercase(lowercase(s)) =~= lowercase(s));
}

/// The format of a file is a supported one, and is the file's extension in
/// small letters: it holds no capital letter.
pub proof fn lemma_format_is_folded(name: Seq<char>)
    requires
        format_of(name).is_some(),
    ensures
        is_supported(format_of(name).unwrap()),
        format_of(name).unwrap() == lowercase(extension(name).unwrap()),
        lowercase(format_of(name).unwrap()) == format_of(name).unwrap(),
{
    lemma_lowercase_idempotent(extension(name).unwrap());
}

/// Every record of the catalog is the record of an entry: a regular file, of a
/// supported format, with metadata. Nothing else is in the catalog.
pub proof fn lemma_catalog_sound(entries: Seq<DirEntryModel>, i: int)
    requires
        0 <= i < catalog(entries).len(),
    ensures
        exists|j: int|
            0 <= j < entries.len() && #[trigger] record_of(entries[j], Seq::empty()) == Some(
                catalog(entries)[i],
            ),
        is_supported(catalog(entries)[i].format),
    decreases entries.len(),
{
    let front = catalog(entries.drop_last());
    let last = entries.len() - 1;
    if i < front.len() {
        lemma_catalog_sound(entries.drop_last(), i);
        let j = choose|j: int|
            0 <= j < entries.drop_last().len() && #[trigger] record_of(
                entries.drop_last()[j],
                Seq::empty(),
            ) == Some(front[i]);
        assert(entries.drop_last()[j] == entries[j]);
        assert(record_of(entries[j], Seq::empty()) == Some(catalog(entries)[i]));
    } else {
        assert(record_of(entries[last], Seq::empty()) == Some(catalog(entries)[i]));
        lemma_format_is_folded(entries[last].name);
    }
}

/// Every entry that has a record is in the catalog, and the records stand in
/// the order of their entries.
pub proof fn lemma_catalog_complete(entries: Seq<DirEntryModel>, j: int)
    requires
        0 <= j < entries.len(),
        record_of(entries[j], Seq::empty()).is_some(),
    ensures
        catalog(entries.take(j)).len() < catalog(entries).len(),
        catalog(entries)[catalog(entries.take(j)).len() as int] == record_of(
            entries[j],
            Seq::empty(),
        ).unwrap(),
    decreases entries.len(),
{
    let last = entries.len() - 1;
    if j == last {
        assert(entries.take(j) =~= entries.drop_last());
    } else {
        lemma_catalog_complete(entries.drop_last(), j);
        assert(entries.drop_last().take(j) =~= entries.take(j));
        assert(entries.drop_last()[j] == entries[j]);
    }
}

/// Where no entry has a record, the catalog is empty.
pub proof fn lemma_catalog_empty(entries: Seq<DirEntryModel>)
    requires
        forall|j: int| 0 <= j < entries.len() ==> (#[trigger] record_of(
            entries[j],
            Seq::empty(),
        )).is_none(),
    ensures
        catalog(entries) == Seq::<PhotoInfoModel>::empty(),
    decreases entries.len(),
{
    if entries.len() > 0 {
        assert forall|j: int| 0 <= j < entries.drop_last().len() implies (#[trigger] record_of(
            entries.drop_last()[j],
            Seq::empty(),
        )).is_none() by {
            assert(entries.drop_last()[j] == entries[j]);
        }
        lemma_catalog_empty(entries.drop_last());
        assert(record_of(entries[entries.len() - 1], Seq::empty()).is_none());
    }
}

/// A scan of a path at which nothing exists ends with the error that says so,
/// and never asks for the directory to be read.
pub proof fn lemma_missing_path_not_read(path: Seq<char>, is_dir: bool, next: ScanModel)
    requires
        ScanModel::start(path).steps_to(ScanReplyModel::Probed { exists: false, is_dir }, next),
    ensures
        ScanModel::start(path).request() == ScanRequestModel::Probe(path),
        next.outcome() == Some(Err::<Seq<PhotoInfoModel>, Seq<char>>(path_missing())),
        next.request() is Finished,
{
}

/// The directory is read only after a probe that found a directory, and a
/// scan that is over asks for nothing more.
pub proof fn lemma_read_follows_probe(state: ScanModel, reply: ScanReplyModel, next: ScanModel)
    requires
        state.steps_to(reply, next),
        next.request() is ReadDir,
        !(state.request() is ReadDir),
    ensures
        state.phase is Probing,
        reply == (ScanReplyModel::Probed { exists: true, is_dir: true }),
        next.request() == ScanRequestModel::ReadDir(state.path),
{
}

/// A scan of a directory in which no entry has a record ends with no records,
/// not with an error.
pub proof fn lemma_no_photos_is_empty(state: ScanModel, entries: Seq<DirEntryModel>, next: ScanModel)
    requires
        state.phase is Reading,
        state.steps_to(ScanReplyModel::Listed(entries), next),
        forall|j: int| 0 <= j < entries.len() ==> (#[trigger] record_of(
            entries[j],
            Seq::empty(),
        )).is_none(),
    ensures
        next.outcome() == Some(
            Ok::<Seq<PhotoInfoModel>, Seq<char>>(Seq::<PhotoInfoModel>::empty()),
        ),
{
    lemma_catalog_empty(entries);
    let records = next.phase->Done_0;
    assert(unmarked(records).len() == records.len());
    assert(records =~= Seq::<PhotoInfoModel>::empty());
}

/// A scan keeps the supported files only, each with its extension in small
/// letters for a format: every record of a scan belongs to an entry that is a
/// regular file of a supported format, and carries that entry's name, path and
/// metadata.
pub proof fn lemma_scan_keeps_supported(
    entries: Seq<DirEntryModel>,
    records: Seq<PhotoInfoModel>,
    i: int,
)
    requires
        scanned(entries, records),
        0 <= i < records.len(),
    ensures
        is_supported(records[i].format),
        lowercase(records[i].format) == records[i].format,
        exists|j: int|
            0 <= j < entries.len() && #[trigger] record_of(entries[j], records[i].id) == Some(
                records[i],
            ),
{
    assert(unmarked(records).len() == records.len());
    assert(unmarked(records)[i] == catalog(entries)[i]);
    lemma_catalog_sound(entries, i);
    let j = choose|j: int|
        0 <= j < entries.len() && #[trigger] record_of(entries[j], Seq::empty()) == Some(
            catalog(entries)[i],
        );
    lemma_format_is_folded(entries[j].name);
    assert(record_of(entries[j], records[i].id) == Some(records[i]));
}

} // verus!
