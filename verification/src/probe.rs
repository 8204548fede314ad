//! The search for a destination name that is not taken.

use crate::clock::{is_stamp, uuid};
use crate::name::{
    candidate, candidate_name, fallback, fallback_name, last_dot, lemma_last_dot, names_a_file,
    stem_or_default, tagged,
};
use crate::path::{FilePath, FilePathModel};
use crate::text::{decimal, lemma_decimal_injective};
use vstd::prelude::*;

verus! {

/// The number of the last numbered name that is tried.
pub const MAX_ATTEMPTS: u32 = 1000;

/// What the search does next.
pub enum NameSearch {
    /// Ask whether `path` exists: it holds the candidate name of number `attempt`.
    Probe { attempt: u32, path: FilePath },
    /// The search is over: the file goes to this path.
    Chosen(FilePath),
}

/// What a [`NameSearch`] stands for.
pub enum NameSearchModel {
    Probe { attempt: nat, path: FilePathModel },
    Chosen(FilePathModel),
}

impl View for NameSearch {
    type V = NameSearchModel;

    open spec fn view(&self) -> NameSearchModel {
        match self {
            NameSearch::Probe { attempt, path } => NameSearchModel::Probe {
                attempt: *attempt as nat,
                path: path@,
            },
            NameSearch::Chosen(path) => NameSearchModel::Chosen(path@),
        }
    }
}

/// The path probed at the given attempt.
pub open spec fn candidate_path(dest_dir: FilePathModel, name: Seq<char>, attempt: nat) -> FilePathModel {
    dest_dir.join(candidate(name, attempt))
}

/// The path chosen when every numbered name is taken.
pub open spec fn fallback_path(dest_dir: FilePathModel, name: Seq<char>, suffix: Seq<char>) -> FilePathModel {
    dest_dir.join(fallback(name, suffix))
}

/// One step of the search. The candidate of number `attempt` was probed and
/// `taken` is the answer.
///
/// - A candidate that is free is chosen.
/// - After a taken one the next number is probed, up to [`MAX_ATTEMPTS`].
/// - Where the last number is taken too, the stem with `suffix` is chosen,
///   unprobed.
pub open spec fn search_step(
    dest_dir: FilePathModel,
    name: Seq<char>,
    attempt: nat,
    taken: bool,
    suffix: Seq<char>,
) -> NameSearchModel {
    if !taken {
        NameSearchModel::Chosen(candidate_path(dest_dir, name, attempt))
    } else if attempt < MAX_ATTEMPTS {
        NameSearchModel::Probe {
            attempt: attempt + 1,
            path: candidate_path(dest_dir, name, attempt + 1),
        }
    } else {
        NameSearchModel::Chosen(fallback_path(dest_dir, name, suffix))
    }
}

/// Whether the step for this answer falls back to a clock suffix.
pub open spec fn falls_back(attempt: nat, taken: bool) -> bool {
    taken && attempt >= MAX_ATTEMPTS
}

/// One step of the search with the fallback suffix given, as [`search_step`]
/// states it.
pub fn next_dest_path(
    dest_dir: &FilePath,
    file_name: &str,
    attempt: u32,
    taken: bool,
    suffix: &str,
) -> (next: NameSearch)
    ensures
        next@ == search_step(dest_dir@, file_name@, attempt as nat, taken, suffix@),
{
    if !taken {
        let name = candidate_name(file_name, attempt);
        NameSearch::Chosen(dest_dir.join(name.as_str()))
    } else if attempt < MAX_ATTEMPTS {
        let name = candidate_name(file_name, attempt + 1);
        NameSearch::Probe { attempt: attempt + 1, path: dest_dir.join(name.as_str()) }
    } else {
        let name = fallback_name(file_name, suffix);
        NameSearch::Chosen(dest_dir.join(name.as_str()))
    }
}

/// One step of the search for a destination that overwrites nothing.
///
/// The caller probes `dest_dir` for the candidate of number `attempt` (0 is the
/// file's own name) and passes the answer. The step is [`search_step`]; where
/// it falls back, the suffix is read from the clock.
pub fn unique_dest_path(dest_dir: &FilePath, file_name: &str, attempt: u32, taken: bool) -> (next:
    NameSearch)
    ensures
        !falls_back(attempt as nat, taken) ==> next@ == search_step(
            dest_dir@,
            file_name@,
            attempt as nat,
            taken,
            Seq::empty(),
        ),
        falls_back(attempt as nat, taken) ==> exists|suffix: Seq<char>|
            is_stamp(suffix) && next@ == #[trigger] search_step(
                dest_dir@,
                file_name@,
                attempt as nat,
                taken,
                suffix,
            ),
{
    if taken && attempt >= MAX_ATTEMPTS {
        let suffix = uuid();
        next_dest_path(dest_dir, file_name, attempt, taken, suffix.as_str())
    } else {
        next_dest_path(dest_dir, file_name, attempt, taken, "")
    }
}

/// A numbered name differs from the name it was built from.
pub proof fn lemma_tagged_differs(name: Seq<char>, tag: Seq<char>)
    ensures
        tagged(name, tag) != name,
{
    let stem = stem_or_default(name);
    let t = tagged(name, tag);
    lemma_last_dot(name);
    assert(t.len() >= stem.len() + 1);
    assert(t[stem.len() as int] == '_');
    if names_a_file(name) && last_dot(name) > 0 {
        assert(stem.len() == last_dot(name));
        assert(name[stem.len() as int] == '.');
    } else if names_a_file(name) {
        assert(stem == name);
    } else {
        assert(stem.len() == 4);
        assert(name.len() <= 2) by {
            if name.len() > 0 && name != seq!['.'] {
                assert(name == seq!['.', '.']);
                assert(seq!['.', '.'].len() == 2);
            }
            if name == seq!['.'] {
                assert(seq!['.'].len() == 1);
            }
        }
    }
}

/// Numbered names of one file name are equal only where their tags are.
pub proof fn lemma_tagged_injective(name: Seq<char>, a: Seq<char>, b: Seq<char>)
    requires
        tagged(name, a) == tagged(name, b),
    ensures
        a == b,
{
    let stem = stem_or_default(name);
    let ta = tagged(name, a);
    let tb = tagged(name, b);
    let start: int = stem.len() as int + 1;
    assert(ta.len() == tb.len());
    assert(a.len() == b.len());
    assert(a =~= ta.subrange(start, start + a.len()));
    assert(b =~= tb.subrange(start, start + b.len()));
}

/// The candidate names of one file are all different: no two attempts probe
/// the same name.
pub proof fn lemma_candidates_distinct(name: Seq<char>, i: nat, j: nat)
    requires
        i != j,
    ensures
        candidate(name, i) != candidate(name, j),
{
    if i == 0 {
        lemma_tagged_differs(name, decimal(j));
    } else if j == 0 {
        lemma_tagged_differs(name, decimal(i));
    } else if candidate(name, i) == candidate(name, j) {
        lemma_tagged_injective(name, decimal(i), decimal(j));
        lemma_decimal_injective(i, j);
    }
}

/// The paths probed for one file in one directory are all different.
pub proof fn lemma_candidate_paths_distinct(dest_dir: FilePathModel, name: Seq<char>, i: nat, j: nat)
    requires
        i != j,
    ensures
        candidate_path(dest_dir, name, i) != candidate_path(dest_dir, name, j),
{
    lemma_candidates_distinct(name, i, j);
    let a = candidate_path(dest_dir, name, i);
    let b = candidate_path(dest_dir, name, j);
    assert(a.parts.last() == candidate(name, i));
    assert(b.parts.last() == candidate(name, j));
}

/// The path on which the search ends when it starts at the candidate of number
/// `attempt` and every probe is answered by `taken`.
pub open spec fn search_from(
    dest_dir: FilePathModel,
    name: Seq<char>,
    attempt: nat,
    taken: spec_fn(FilePathModel) -> bool,
    suffix: Seq<char>,
) -> FilePathModel
    decreases MAX_ATTEMPTS + 1 - attempt,
{
    let path = candidate_path(dest_dir, name, attempt);
    if !taken(path) {
        path
    } else if attempt < MAX_ATTEMPTS {
        search_from(dest_dir, name, attempt + 1, taken, suffix)
    } else {
        fallback_path(dest_dir, name, suffix)
    }
}

/// One step of the search leads where the whole search leads: a chosen path
/// is its end, and a further probe has the same end.
pub proof fn lemma_search_step_agrees(
    dest_dir: FilePathModel,
    name: Seq<char>,
    attempt: nat,
    taken: spec_fn(FilePathModel) -> bool,
    suffix: Seq<char>,
)
    ensures
        match search_step(
            dest_dir,
            name,
            attempt,
            taken(candidate_path(dest_dir, name, attempt)),
            suffix,
        ) {
            NameSearchModel::Chosen(path) => path == search_from(
                dest_dir,
                name,
                attempt,
                taken,
                suffix,
            ),
            NameSearchModel::Probe { attempt: next, path } => {
                &&& next == attempt + 1
                &&& path == candidate_path(dest_dir, name, next)
                &&& search_from(dest_dir, name, next, taken, suffix) == search_from(
                    dest_dir,
                    name,
                    attempt,
                    taken,
                    suffix,
                )
            },
        },
{
}

/// The search ends on the first candidate that is not taken: every candidate
/// before it is taken, and it is not. Only where the name and all numbered
/// names up to the last are taken does it end on the fallback path.
pub proof fn lemma_search_first_free(
    dest_dir: FilePathModel,
    name: Seq<char>,
    attempt: nat,
    taken: spec_fn(FilePathModel) -> bool,
    suffix: Seq<char>,
)
    requires
        attempt <= MAX_ATTEMPTS,
    ensures
        ({
            let end = search_from(dest_dir, name, attempt, taken, suffix);
            ||| exists|k: nat|
                {
                    &&& attempt <= k <= MAX_ATTEMPTS
                    &&& end == #[trigger] candidate_path(dest_dir, name, k)
                    &&& !taken(end)
                    &&& forall|j: nat|
                        attempt <= j < k ==> taken(#[trigger] candidate_path(dest_dir, name, j))
                }
            ||| {
                &&& end == fallback_path(dest_dir, name, suffix)
                &&& forall|j: nat|
                    attempt <= j <= MAX_ATTEMPTS ==> taken(
                        #[trigger] candidate_path(dest_dir, name, j),
                    )
            }
        }),
    decreases MAX_ATTEMPTS - attempt,
{
    let end = search_from(dest_dir, name, attempt, taken, suffix);
    let here = candidate_path(dest_dir, name, attempt);
    if !taken(here) {
        assert(end == candidate_path(dest_dir, name, attempt));
    } else if attempt < MAX_ATTEMPTS {
        lemma_search_first_free(dest_dir, name, attempt + 1, taken, suffix);
        let rest = search_from(dest_dir, name, attempt + 1, taken, suffix);
        assert(end == rest);
        if exists|k: nat|
            {
                &&& attempt + 1 <= k <= MAX_ATTEMPTS
                &&& rest == #[trigger] candidate_path(dest_dir, name, k)
                &&& !taken(rest)
                &&& forall|j: nat|
                    attempt + 1 <= j < k ==> taken(#[trigger] candidate_path(dest_dir, name, j))
            } {
            let k = choose|k: nat|
                {
                    &&& attempt + 1 <= k <= MAX_ATTEMPTS
                    &&& rest == #[trigger] candidate_path(dest_dir, name, k)
                    &&& !taken(rest)
                    &&& forall|j: nat|
                        attempt + 1 <= j < k ==> taken(
                            #[trigger] candidate_path(dest_dir, name, j),
                        )
                };
            assert forall|j: nat| attempt <= j < k implies taken(
                #[trigger] candidate_path(dest_dir, name, j),
            ) by {
                if j == attempt {
                } else {
                    assert(attempt + 1 <= j);
                }
            }
            assert(end == candidate_path(dest_dir, name, k));
        } else {
            assert forall|j: nat| attempt <= j <= MAX_ATTEMPTS implies taken(
                #[trigger] candidate_path(dest_dir, name, j),
            ) by {
                if j == attempt {
                } else {
                    assert(attempt + 1 <= j);
                }
            }
        }
    } else {
        assert forall|j: nat| attempt <= j <= MAX_ATTEMPTS implies taken(
            #[trigger] candidate_path(dest_dir, name, j),
        ) by {
            assert(j == attempt);
        }
    }
}

} // verus!
