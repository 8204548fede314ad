//! Directory entries as the caller found them, and the records made of them.

use crate::name::{extension, split_name};
use crate::text::{lowercase, to_lowercase};
use vstd::prelude::*;
use vstd::string::*;

verus! {

/// The record of one photo.
pub struct PhotoInfo {
    /// Tells the records of one scan apart; see [`crate::clock::uuid`].
    pub id: String,
    /// The file's name.
    pub name: String,
    /// The file's path.
    pub path: String,
    /// The file's size in bytes.
    pub size: u64,
    /// The file's extension in small letters.
    pub format: String,
    /// When the file was created, in seconds since the epoch.
    pub created_at: u64,
    /// When the file was last modified, in seconds since the epoch.
    pub modified_at: u64,
}

/// What a [`PhotoInfo`] stands for.
pub struct PhotoInfoModel {
    pub id: Seq<char>,
    pub name: Seq<char>,
    pub path: Seq<char>,
    pub size: u64,
    pub format: Seq<char>,
    pub created_at: u64,
    pub modified_at: u64,
}

impl View for PhotoInfo {
    type V = PhotoInfoModel;

    open spec fn view(&self) -> PhotoInfoModel {
        PhotoInfoModel {
            id: self.id@,
            name: self.name@,
            path: self.path@,
            size: self.size,
            format: self.format@,
            created_at: self.created_at,
            modified_at: self.modified_at,
        }
    }
}

impl DeepView for PhotoInfo {
    type V = PhotoInfoModel;

    open spec fn deep_view(&self) -> PhotoInfoModel {
        self@
    }
}

/// What the file system tells of a file.
#[derive(Clone, Copy)]
pub struct FileMeta {
    /// The size in bytes.
    pub size: u64,
    /// The time of creation in seconds since the epoch, where the platform has
    /// one.
    pub created: Option<u64>,
    /// The time of the last change in seconds since the epoch, where the
    /// platform has one.
    pub modified: Option<u64>,
}

/// One entry of a directory, as the caller found it.
pub struct DirEntry {
    /// The entry's name.
    pub name: String,
    /// The entry's path.
    pub path: String,
    /// Whether the entry is a regular file.
    pub is_file: bool,
    /// The entry's metadata, where it could be read.
    pub meta: Option<FileMeta>,
}

/// What a [`DirEntry`] stands for.
pub struct DirEntryModel {
    pub name: Seq<char>,
    pub path: Seq<char>,
    pub is_file: bool,
    pub meta: Option<FileMeta>,
}

impl View for DirEntry {
    type V = DirEntryModel;

    open spec fn view(&self) -> DirEntryModel {
        DirEntryModel { name: self.name@, path: self.path@, is_file: self.is_file, meta: self.meta }
    }
}

impl DeepView for DirEntry {
    type V = DirEntryModel;

    open spec fn deep_view(&self) -> DirEntryModel {
        self@
    }
}

/// The formats that count as photos, each by its extension in small letters.
pub open spec fn supported_formats() -> Seq<Seq<char>> {
    seq![
        "jpg"@,
        "jpeg"@,
        "png"@,
        "gif"@,
        "bmp"@,
        "webp"@,
        "tiff"@,
        "heic"@,
        "raw"@,
    ]
}

/// Whether `tag` is one of the supported formats.
pub open spec fn is_supported(tag: Seq<char>) -> bool {
    supported_formats().contains(tag)
}

/// The format of a file by its name: the extension in small letters, where it
/// is a supported format.
pub open spec fn format_of(name: Seq<char>) -> Option<Seq<char>> {
    match extension(name) {
        Some(ext) => if is_supported(lowercase(ext)) {
            Some(lowercase(ext))
        } else {
            None
        },
        None => None,
    }
}

/// A time that the platform could not give counts as the epoch.
pub open spec fn time_or_epoch(time: Option<u64>) -> u64 {
    match time {
        Some(seconds) => seconds,
        None => 0,
    }
}

/// The record of an entry under the given identifier. An entry has one where
/// it is a regular file of a supported format whose metadata could be read.
pub open spec fn record_of(entry: DirEntryModel, id: Seq<char>) -> Option<PhotoInfoModel> {
    if entry.is_file && format_of(entry.name).is_some() && entry.meta.is_some() {
        Some(
            PhotoInfoModel {
                id,
                name: entry.name,
                path: entry.path,
                size: entry.meta.unwrap().size,
                format: format_of(entry.name).unwrap(),
                created_at: time_or_epoch(entry.meta.unwrap().created),
                modified_at: time_or_epoch(entry.meta.unwrap().modified),
            },
        )
    } else {
        None
    }
}

/// Whether `tag` is one of the supported formats, as [`is_supported`] states it.
pub fn is_supported_format(tag: &String) -> (known: bool)
    ensures
        known == is_supported(tag@),
{
    let formats: Vec<String> = vec![
        String::from_str("jpg"),
        String::from_str("jpeg"),
        String::from_str("png"),
        String::from_str("gif"),
        String::from_str("bmp"),
        String::from_str("webp"),
        String::from_str("tiff"),
        String::from_str("heic"),
        String::from_str("raw"),
    ];
    assert(formats.deep_view() =~= supported_formats());
    let mut i: usize = 0;
    while i < formats.len()
        invariant
            i <= formats.len(),
            formats.deep_view() == supported_formats(),
            forall|j: int| 0 <= j < i ==> supported_formats()[j] != tag@,
        decreases formats.len() - i,
    {
        if formats[i] == *tag {
            assert(supported_formats()[i as int] == tag@);
            return true;
        }
        i += 1;
    }
    false
}

/// The format of a file by its name, as [`format_of`] states it.
pub fn format_tag(name: &str) -> (tag: Option<String>)
    ensures
        tag.deep_view() == format_of(name@),
{
    match split_name(name).extension {
        Some(ext) => {
            let folded = to_lowercase(ext.as_str());
            if is_supported_format(&folded) {
                Some(folded)
            } else {
                None
            }
        },
        None => None,
    }
}

/// The record of an entry under the given identifier, as [`record_of`] states
/// it.
pub fn photo_record(entry: &DirEntry, id: String) -> (record: Option<PhotoInfo>)
    ensures
        record.deep_view() == record_of(entry@, id@),
{
    if !entry.is_file {
        return None;
    }
    let format = match format_tag(entry.name.as_str()) {
        Some(tag) => tag,
        None => {
            return None;
        },
    };
    let meta = match entry.meta {
        Some(meta) => meta,
        None => {
            return None;
        },
    };
    Some(
        PhotoInfo {
            id,
            name: entry.name.clone(),
            path: entry.path.clone(),
            size: meta.size,
            format,
            created_at: match meta.created {
                Some(seconds) => seconds,
                None => 0,
            },
            modified_at: match meta.modified {
                Some(seconds) => seconds,
                None => 0,
            },
        },
    )
}

} // verus!
