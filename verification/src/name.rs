//! Analysis of a single file name: stem, extension, and the numbered names that
//! are tried when a name is already taken.

use crate::text::{chars_of, decimal, render_decimal, text_of};
use vstd::prelude::*;
use vstd::string::*;

verus! {

/// Whether `name` can name a file: it is not empty and is neither `.` nor `..`.
pub open spec fn names_a_file(name: Seq<char>) -> bool {
    name.len() > 0 && name != seq!['.'] && name != seq!['.', '.']
}

/// The position of the last `.` in `name`, or -1 where it has none.
pub open spec fn last_dot(name: Seq<char>) -> int
    decreases name.len(),
{
    if name.len() == 0 {
        -1
    } else if name.last() == '.' {
        name.len() - 1
    } else {
        last_dot(name.drop_last())
    }
}

/// `last_dot` is a position of a `.` with no `.` behind it.
pub proof fn lemma_last_dot(name: Seq<char>)
    ensures
        -1 <= last_dot(name) < name.len(),
        last_dot(name) >= 0 ==> name[last_dot(name)] == '.',
        forall|j: int| last_dot(name) < j < name.len() ==> name[j] != '.',
    decreases name.len(),
{
    if name.len() > 0 && name.last() != '.' {
        lemma_last_dot(name.drop_last());
        assert forall|j: int| last_dot(name) < j < name.len() implies name[j] != '.' by {
            if j < name.len() - 1 {
                assert(name.drop_last()[j] == name[j]);
            }
        }
    }
}

/// The extension of a file name: what follows its last `.`, unless that `.` is
/// the first character or there is none.
pub open spec fn extension(name: Seq<char>) -> Option<Seq<char>> {
    if names_a_file(name) && last_dot(name) > 0 {
        Some(name.skip(last_dot(name) + 1))
    } else {
        None
    }
}

/// The stem of a file name: what stands before the `.` of its extension, or the
/// whole name where it has no extension.
pub open spec fn file_stem(name: Seq<char>) -> Option<Seq<char>> {
    if !names_a_file(name) {
        None
    } else if last_dot(name) > 0 {
        Some(name.take(last_dot(name)))
    } else {
        Some(name)
    }
}

/// The stem that numbered names are built on: `file` where the name has none.
pub open spec fn stem_or_default(name: Seq<char>) -> Seq<char> {
    match file_stem(name) {
        Some(stem) => stem,
        None => seq!['f', 'i', 'l', 'e'],
    }
}

/// The name `stem_tag.ext`, or `stem_tag` where `name` has no extension or an
/// empty one.
pub open spec fn tagged(name: Seq<char>, tag: Seq<char>) -> Seq<char> {
    let base = stem_or_default(name) + seq!['_'] + tag;
    match extension(name) {
        Some(ext) => if ext.len() > 0 {
            base + seq!['.'] + ext
        } else {
            base
        },
        None => base,
    }
}

/// The name tried at the given attempt: the name itself first, then
/// `stem_1.ext`, `stem_2.ext` and so on.
pub open spec fn candidate(name: Seq<char>, attempt: nat) -> Seq<char> {
    if attempt == 0 {
        name
    } else {
        tagged(name, decimal(attempt))
    }
}

/// The name used when every numbered name is taken: the stem, `_` and a suffix,
/// without the extension.
pub open spec fn fallback(name: Seq<char>, suffix: Seq<char>) -> Seq<char> {
    stem_or_default(name) + seq!['_'] + suffix
}

/// The two parts of a file name.
pub struct NameParts {
    pub stem: Option<String>,
    pub extension: Option<String>,
}

/// Splits a file name into stem and extension.
pub fn split_name(name: &str) -> (parts: NameParts)
    ensures
        parts.stem.deep_view() == file_stem(name@),
        parts.extension.deep_view() == extension(name@),
{
    let chars = chars_of(name);
    let n = chars.len();
    if n == 0 || (n == 1 && chars[0] == '.') || (n == 2 && chars[0] == '.' && chars[1] == '.') {
        proof {
            if n == 1 {
                assert(name@ =~= seq!['.']);
            }
            if n == 2 {
                assert(name@ =~= seq!['.', '.']);
            }
        }
        return NameParts { stem: None, extension: None };
    }
    proof {
        if name@ == seq!['.'] {
            assert(seq!['.'].len() == 1);
            assert(seq!['.'][0] == '.');
        }
        if name@ == seq!['.', '.'] {
            assert(seq!['.', '.'].len() == 2);
            assert(seq!['.', '.'][0] == '.');
            assert(seq!['.', '.'][1] == '.');
        }
        assert(names_a_file(name@));
    }
    let mut k: usize = n;
    assert(name@.take(n as int) =~= name@);
    while k > 0 && chars[k - 1] != '.'
        invariant
            k <= n,
            n == chars.len(),
            chars@ == name@,
            last_dot(name@) == last_dot(name@.take(k as int)),
        decreases k,
    {
        proof {
            assert(name@.take(k as int).drop_last() =~= name@.take(k - 1));
            assert(name@.take(n as int) =~= name@);
        }
        k -= 1;
    }
    proof {
        assert(name@.take(n as int) =~= name@);
        if k > 0 {
            assert(name@.take(k as int).last() == '.');
        }
    }
    // `k - 1` is the last dot, or `k` is 0 where the name has none.
    if k > 1 {
        let stem = text_of(&chars, 0, k - 1);
        let ext = text_of(&chars, k, n);
        proof {
            assert(name@.subrange(0, k - 1) =~= name@.take(k - 1));
            assert(name@.subrange(k as int, n as int) =~= name@.skip(k as int));
        }
        NameParts { stem: Some(stem), extension: Some(ext) }
    } else {
        let stem = text_of(&chars, 0, n);
        proof {
            assert(name@.subrange(0, n as int) =~= name@);
        }
        NameParts { stem: Some(stem), extension: None }
    }
}

/// Builds the name `stem_tag.ext` for `name`, as [`tagged`] states it.
pub fn tagged_name(name: &str, tag: &str) -> (out: String)
    ensures
        out@ == tagged(name@, tag@),
{
    let parts = split_name(name);
    let mut out = match parts.stem {
        Some(stem) => stem,
        None => {
            proof {
                reveal_strlit("file");
                assert("file"@ =~= seq!['f', 'i', 'l', 'e']);
            }
            String::from_str("file")
        },
    };
    out.push('_');
    out.append(tag);
    match parts.extension {
        Some(ext) => {
            if ext.as_str().unicode_len() > 0 {
                out.push('.');
                out.append(ext.as_str());
            }
        },
        None => {},
    }
    assert(out@ =~= tagged(name@, tag@));
    out
}

/// The name tried at the given attempt, as [`candidate`] states it.
pub fn candidate_name(name: &str, attempt: u32) -> (out: String)
    ensures
        out@ == candidate(name@, attempt as nat),
{
    if attempt == 0 {
        String::from_str(name)
    } else {
        let number = render_decimal(attempt as u128);
        tagged_name(name, number.as_str())
    }
}

/// The name used when every numbered name is taken, as [`fallback`] states it.
pub fn fallback_name(name: &str, suffix: &str) -> (out: String)
    ensures
        out@ == fallback(name@, suffix@),
{
    let parts = split_name(name);
    let mut out = match parts.stem {
        Some(stem) => stem,
        None => {
            proof {
                reveal_strlit("file");
                assert("file"@ =~= seq!['f', 'i', 'l', 'e']);
            }
            String::from_str("file")
        },
    };
    out.push('_');
    out.append(suffix);
    assert(out@ =~= fallback(name@, suffix@));
    out
}

} // verus!
