//! Resolved paths as plain values: an anchor and the names that lead down from it.

use crate::name::names_a_file;
use crate::text::chars_of;
use vstd::prelude::*;
use vstd::string::*;

verus! {

/// A path as a value: the anchor (`/`, or a drive with its root) and, one by
/// one, the names that lead from it to the place meant.
///
/// A canonical path has real directory and file names for parts. The library
/// also builds paths by appending a name that the caller supplied; it reads
/// such a part only as text.
pub struct FilePath {
    pub anchor: String,
    pub parts: Vec<String>,
}

/// What a [`FilePath`] stands for.
pub struct FilePathModel {
    pub anchor: Seq<char>,
    pub parts: Seq<Seq<char>>,
}

impl View for FilePath {
    type V = FilePathModel;

    open spec fn view(&self) -> FilePathModel {
        FilePathModel { anchor: self.anchor@, parts: self.parts.deep_view() }
    }
}

impl DeepView for FilePath {
    type V = FilePathModel;

    open spec fn deep_view(&self) -> FilePathModel {
        self@
    }
}

/// The parts joined by `/`.
pub open spec fn joined(parts: Seq<Seq<char>>) -> Seq<char>
    decreases parts.len(),
{
    if parts.len() == 0 {
        Seq::empty()
    } else if parts.len() == 1 {
        parts[0]
    } else {
        joined(parts.drop_last()) + seq!['/'] + parts.last()
    }
}

impl FilePathModel {
    /// The directory that holds this path: the path without its last part.
    /// An anchor alone has none.
    pub open spec fn parent(self) -> Option<FilePathModel> {
        if self.parts.len() == 0 {
            None
        } else {
            Some(FilePathModel { anchor: self.anchor, parts: self.parts.drop_last() })
        }
    }

    /// This path with one more part.
    pub open spec fn join(self, name: Seq<char>) -> FilePathModel {
        FilePathModel { anchor: self.anchor, parts: self.parts.push(name) }
    }

    /// The last part, where there is one and it can name a file.
    pub open spec fn file_name(self) -> Option<Seq<char>> {
        if self.parts.len() > 0 && names_a_file(self.parts.last()) {
            Some(self.parts.last())
        } else {
            None
        }
    }

    /// Whether this path is `base` or lies below it: the anchors agree and the
    /// parts of `base` are the first parts of this path, whole part by whole part.
    pub open spec fn starts_with(self, base: FilePathModel) -> bool {
        self.anchor == base.anchor && base.parts.is_prefix_of(self.parts)
    }

    /// The path as text for a message: the anchor, then the parts joined by `/`.
    pub open spec fn display(self) -> Seq<char> {
        self.anchor + joined(self.parts)
    }
}

impl FilePath {
    /// A path of the given anchor and parts.
    pub fn new(anchor: String, parts: Vec<String>) -> (path: FilePath)
        ensures
            path@ == (FilePathModel { anchor: anchor@, parts: parts.deep_view() }),
    {
        FilePath { anchor, parts }
    }

    /// A copy of this path.
    pub fn duplicate(&self) -> (copy: FilePath)
        ensures
            copy@ == self@,
    {
        let mut parts: Vec<String> = Vec::new();
        let mut i: usize = 0;
        while i < self.parts.len()
            invariant
                i <= self.parts.len(),
                parts.deep_view() =~= self.parts.deep_view().take(i as int),
            decreases self.parts.len() - i,
        {
            let ghost before = parts.deep_view();
            let part = self.parts[i].clone();
            assert(part@ == self.parts.deep_view()[i as int]);
            parts.push(part);
            assert(parts.deep_view() =~= before.push(part@));
            i += 1;
        }
        assert(parts.deep_view() =~= self.parts.deep_view());
        FilePath { anchor: self.anchor.clone(), parts }
    }

    /// The directory that holds this path, as [`FilePathModel::parent`] states it.
    pub fn parent(&self) -> (dir: Option<FilePath>)
        ensures
            dir.deep_view() == self@.parent(),
    {
        if self.parts.len() == 0 {
            return None;
        }
        let mut parts: Vec<String> = Vec::new();
        let mut i: usize = 0;
        while i < self.parts.len() - 1
            invariant
                self.parts.len() > 0,
                i <= self.parts.len() - 1,
                parts.deep_view() =~= self.parts.deep_view().take(i as int),
            decreases self.parts.len() - i,
        {
            let ghost before = parts.deep_view();
            let part = self.parts[i].clone();
            assert(part@ == self.parts.deep_view()[i as int]);
            parts.push(part);
            assert(parts.deep_view() =~= before.push(part@));
            i += 1;
        }
        assert(parts.deep_view() =~= self.parts.deep_view().drop_last());
        Some(FilePath { anchor: self.anchor.clone(), parts })
    }

    /// This path with one more part, as [`FilePathModel::join`] states it.
    pub fn join(&self, name: &str) -> (path: FilePath)
        ensures
            path@ == self@.join(name@),
    {
        let mut path = self.duplicate();
        path.parts.push(String::from_str(name));
        assert(path.parts.deep_view() =~= self.parts.deep_view().push(name@));
        path
    }

    /// The last part where it can name a file, as [`FilePathModel::file_name`]
    /// states it.
    pub fn file_name(&self) -> (name: Option<String>)
        ensures
            name.deep_view() == self@.file_name(),
    {
        let n = self.parts.len();
        if n == 0 {
            return None;
        }
        let last = &self.parts[n - 1];
        assert(last@ == self@.parts.last());
        let chars = chars_of(last.as_str());
        let m = chars.len();
        if m == 0 || (m == 1 && chars[0] == '.') || (m == 2 && chars[0] == '.' && chars[1] == '.') {
            proof {
                if m == 1 {
                    assert(last@ =~= seq!['.']);
                }
                if m == 2 {
                    assert(last@ =~= seq!['.', '.']);
                }
            }
            return None;
        }
        proof {
            if last@ == seq!['.'] {
                assert(seq!['.'].len() == 1);
                assert(seq!['.'][0] == '.');
            }
            if last@ == seq!['.', '.'] {
                assert(seq!['.', '.'].len() == 2);
                assert(seq!['.', '.'][0] == '.');
                assert(seq!['.', '.'][1] == '.');
            }
        }
        Some(last.clone())
    }

    /// Whether this path is `base` or lies below it, as
    /// [`FilePathModel::starts_with`] states it.
    pub fn starts_with(&self, base: &FilePath) -> (inside: bool)
        ensures
            inside == self@.starts_with(base@),
    {
        if self.anchor != base.anchor {
            return false;
        }
        if base.parts.len() > self.parts.len() {
            return false;
        }
        let mut i: usize = 0;
        while i < base.parts.len()
            invariant
                i <= base.parts.len() <= self.parts.len(),
                forall|j: int| 0 <= j < i ==> self@.parts[j] == base@.parts[j],
            decreases base.parts.len() - i,
        {
            if self.parts[i] != base.parts[i] {
                assert(self@.parts[i as int] != base@.parts[i as int]);
                return false;
            }
            i += 1;
        }
        assert(base@.parts =~= self@.parts.subrange(0, base@.parts.len() as int));
        true
    }

    /// The path as text for a message, as [`FilePathModel::display`] states it.
    pub fn display(&self) -> (out: String)
        ensures
            out@ == self@.display(),
    {
        let mut out = self.anchor.clone();
        let mut i: usize = 0;
        while i < self.parts.len()
            invariant
                i <= self.parts.len(),
                out@ =~= self.anchor@ + joined(self@.parts.take(i as int)),
            decreases self.parts.len() - i,
        {
            let ghost before = self@.parts.take(i as int);
            let ghost after = self@.parts.take(i + 1);
            proof {
                assert(after.drop_last() =~= before);
                assert(after.last() == self.parts[i as int]@);
            }
            if i > 0 {
                out.push('/');
            }
            out.append(self.parts[i].as_str());
            proof {
                if i == 0 {
                    assert(joined(before) =~= Seq::<char>::empty());
                    assert(joined(after) =~= after[0]);
                } else {
                    assert(joined(after) =~= joined(before) + seq!['/'] + after.last());
                }
            }
            i += 1;
        }
        assert(self@.parts.take(self.parts.len() as int) =~= self@.parts);
        out
    }
}

} // verus!
