//! The words of every error and failure reason.

use crate::path::{FilePath, FilePathModel};
use vstd::prelude::*;
use vstd::string::*;

verus! {

/// Scan: nothing exists at the path.
pub open spec fn path_missing() -> Seq<char> {
    "path does not exist"@
}

/// Scan: the path is not a directory.
pub open spec fn not_a_directory() -> Seq<char> {
    "path is not a directory"@
}

/// Scan: the directory could not be read.
pub open spec fn read_failed(error: Seq<char>) -> Seq<char> {
    "failed to read directory: "@ + error
}

/// Relocation: the containment directory could not be resolved.
pub open spec fn root_unavailable(error: Seq<char>) -> Seq<char> {
    "containment directory unavailable: "@ + error
}

/// Relocation: the containment directory has no directory above it.
pub open spec fn root_without_parent() -> Seq<char> {
    "containment directory has no parent directory, cannot create a sibling folder"@
}

/// Relocation: the destination directory could not be created.
pub open spec fn create_failed(dest_dir: FilePathModel, error: Seq<char>) -> Seq<char> {
    "failed to create destination folder ("@ + dest_dir.display() + "): "@ + error
}

/// One file: the source could not be resolved.
pub open spec fn source_unavailable(error: Seq<char>) -> Seq<char> {
    "source unavailable: "@ + error
}

/// One file: the source lies outside the containment directory.
pub open spec fn source_outside() -> Seq<char> {
    "source not inside the containment directory"@
}

/// One file: the source has no file name.
pub open spec fn no_file_name() -> Seq<char> {
    "cannot determine file name"@
}

/// One file: neither the rename nor the copy succeeded.
pub open spec fn move_failed(rename_error: Seq<char>, copy_error: Seq<char>) -> Seq<char> {
    "move failed: "@ + rename_error + "; copy also failed: "@ + copy_error
}

/// One file: the copy stands at the destination, but the source is still there.
pub open spec fn source_not_removed(error: Seq<char>) -> Seq<char> {
    "copied to the destination but failed to remove the source: "@ + error
}

/// The text `head` followed by `tail`.
pub fn compose(head: &str, tail: &str) -> (out: String)
    ensures
        out@ == head@ + tail@,
{
    let mut out = String::from_str(head);
    out.append(tail);
    out
}

/// The words of [`path_missing`].
pub fn path_missing_text() -> (out: String)
    ensures
        out@ == path_missing(),
{
    String::from_str("path does not exist")
}

/// The words of [`not_a_directory`].
pub fn not_a_directory_text() -> (out: String)
    ensures
        out@ == not_a_directory(),
{
    String::from_str("path is not a directory")
}

/// The words of [`read_failed`].
pub fn read_failed_text(error: &str) -> (out: String)
    ensures
        out@ == read_failed(error@),
{
    compose("failed to read directory: ", error)
}

/// The words of [`root_unavailable`].
pub fn root_unavailable_text(error: &str) -> (out: String)
    ensures
        out@ == root_unavailable(error@),
{
    compose("containment directory unavailable: ", error)
}

/// The words of [`root_without_parent`].
pub fn root_without_parent_text() -> (out: String)
    ensures
        out@ == root_without_parent(),
{
    String::from_str("containment directory has no parent directory, cannot create a sibling folder")
}

/// The words of [`create_failed`].
pub fn create_failed_text(dest_dir: &FilePath, error: &str) -> (out: String)
    ensures
        out@ == create_failed(dest_dir@, error@),
{
    let mut out = String::from_str("failed to create destination folder (");
    out.append(dest_dir.display().as_str());
    out.append("): ");
    out.append(error);
    out
}

/// The words of [`source_unavailable`].
pub fn source_unavailable_text(error: &str) -> (out: String)
    ensures
        out@ == source_unavailable(error@),
{
    compose("source unavailable: ", error)
}

/// The words of [`source_outside`].
pub fn source_outside_text() -> (out: String)
    ensures
        out@ == source_outside(),
{
    String::from_str("source not inside the containment directory")
}

/// The words of [`no_file_name`].
pub fn no_file_name_text() -> (out: String)
    ensures
        out@ == no_file_name(),
{
    String::from_str("cannot determine file name")
}

/// The words of [`move_failed`].
pub fn move_failed_text(rename_error: &str, copy_error: &str) -> (out: String)
    ensures
        out@ == move_failed(rename_error@, copy_error@),
{
    let mut out = String::from_str("move failed: ");
    out.append(rename_error);
    out.append("; copy also failed: ");
    out.append(copy_error);
    out
}

/// The words of [`source_not_removed`].
pub fn source_not_removed_text(error: &str) -> (out: String)
    ensures
        out@ == source_not_removed(error@),
{
    compose("copied to the destination but failed to remove the source: ", error)
}

} // verus!
