//! What holds of every relocation.

use crate::message::source_outside;
use crate::outcome::{MoveFailureModel, MoveResultModel, ReplyModel, RequestModel};
use crate::path::FilePathModel;
use crate::probe::{
    candidate_path, fallback_path, lemma_search_step_agrees, search_from, MAX_ATTEMPTS,
};
use crate::relocate::model::{failed_paths, is_subsequence, PhaseModel, RelocationModel};
use vstd::prelude::*;

verus! {

/// A subsequence stays one when the full sequence grows by an item, with or
/// without that item.
pub proof fn lemma_subsequence_grows(sub: Seq<Seq<char>>, full: Seq<Seq<char>>, item: Seq<char>)
    requires
        is_subsequence(sub, full),
    ensures
        is_subsequence(sub, full.push(item)),
        is_subsequence(sub.push(item), full.push(item)),
{
    assert(full.push(item).drop_last() =~= full);
    assert(sub.push(item).drop_last() =~= sub);
}

/// A relocation begins in a state that meets the invariant.
pub proof fn lemma_start_inv(paths: Seq<Seq<char>>, import_dir: Seq<char>, sibling: Seq<char>)
    ensures
        RelocationModel::start(paths, import_dir, sibling).inv(),
{
    assert(failed_paths(Seq::<MoveFailureModel>::empty()) =~= Seq::<Seq<char>>::empty());
}

/// Every step keeps the invariant, whatever the reply.
pub proof fn lemma_step_inv(state: RelocationModel, reply: ReplyModel, suffix: Seq<char>)
    requires
        state.inv(),
    ensures
        state.step(reply, suffix).inv(),
{
    let next = state.step(reply, suffix);
    if next.index == state.index + 1 {
        let item = state.paths[state.index as int];
        let before = state.paths.take(state.index as int);
        assert(state.paths.take(next.index as int) =~= before.push(item));
        lemma_subsequence_grows(failed_paths(state.failed), before, item);
        if next.failed != state.failed {
            assert(failed_paths(next.failed) =~= failed_paths(state.failed).push(item));
        }
    }
}

/// Once a relocation is done, every source path is either counted as moved or
/// listed as failed, never both and none left out: the two numbers add up to
/// the number of paths, and the listed paths are source paths in the order in
/// which they were given.
pub proof fn lemma_every_path_settled(state: RelocationModel)
    requires
        state.inv(),
        state.phase is Done,
    ensures
        state.outcome() == Some(
            Ok::<MoveResultModel, Seq<char>>(
                MoveResultModel { moved_count: state.moved, failures: state.failed },
            ),
        ),
        state.moved + state.failed.len() == state.paths.len(),
        is_subsequence(failed_paths(state.failed), state.paths),
{
    assert(state.paths.take(state.paths.len() as int) =~= state.paths);
}

/// A step settles at most one file, and what the caller asked for never
/// changes.
pub proof fn lemma_step_settles_one(state: RelocationModel, reply: ReplyModel, suffix: Seq<char>)
    ensures
        state.step(reply, suffix).paths == state.paths,
        state.step(reply, suffix).import_dir == state.import_dir,
        state.step(reply, suffix).sibling == state.sibling,
        state.step(reply, suffix).index == state.index || state.step(reply, suffix).index
            == state.index + 1,
        state.step(reply, suffix).index == state.index + 1 ==> state.in_file(),
{
}

/// A file that fails does not end the relocation: once the setup is done, no
/// reply leads to a setup error, and the next file is taken up.
pub proof fn lemma_failure_goes_on(state: RelocationModel, reply: ReplyModel, suffix: Seq<char>)
    requires
        state.in_file(),
    ensures
        !(state.step(reply, suffix).phase is Aborted),
        state.step(reply, suffix).index == state.index + 1 ==> state.step(reply, suffix).phase
            == state.phase_at(state.index + 1),
{
}

/// A source whose canonical path lies outside the containment directory is
/// listed as failed and not counted, and no request touches it: the next
/// request resolves the next source path, or the relocation is finished.
pub proof fn lemma_outside_source_skipped(
    state: RelocationModel,
    source: FilePathModel,
    suffix: Seq<char>,
)
    requires
        state.inv(),
        state.phase is ResolvingSource,
        !source.starts_with(state.root),
    ensures
        ({
            let next = state.step(ReplyModel::Resolved(source), suffix);
            &&& next.moved == state.moved
            &&& next.failed == state.failed.push(
                MoveFailureModel {
                    path: state.paths[state.index as int],
                    reason: source_outside(),
                },
            )
            &&& next.index == state.index + 1
            &&& next.request() == if state.index + 1 < state.paths.len() {
                RequestModel::Canonicalize(state.paths[state.index as int + 1])
            } else {
                RequestModel::Finished
            }
        }),
{
}

/// A file is counted as moved at one moment only: when the caller reports
/// that the rename of its source succeeded, or that the source was deleted
/// after the copy. One step counts one file at most.
pub proof fn lemma_counted_when_source_left(
    state: RelocationModel,
    reply: ReplyModel,
    suffix: Seq<char>,
)
    ensures
        ({
            let next = state.step(reply, suffix);
            let source_left = (state.phase is Renaming || state.phase is Removing) && reply is Done;
            &&& source_left ==> next.moved == state.moved + 1 && next.failed == state.failed
            &&& !source_left ==> next.moved == state.moved
        }),
        state.phase is Renaming && reply is Done ==> state.request() == (RequestModel::Rename {
            from: state.phase->Renaming_source,
            to: state.phase->Renaming_dest,
        }),
        state.phase is Removing && reply is Done ==> state.request() == RequestModel::RemoveFile(
            state.phase->Removing_source,
        ),
{
}

/// A file that was copied but whose source could not be deleted is listed as
/// failed, not counted.
pub proof fn lemma_copied_not_counted(state: RelocationModel, error: Seq<char>, suffix: Seq<char>)
    requires
        state.phase is Removing,
    ensures
        state.step(ReplyModel::Failed(error), suffix).moved == state.moved,
        state.step(ReplyModel::Failed(error), suffix).failed.len() == state.failed.len() + 1,
{
}

/// Nothing is overwritten unawares: a file is renamed or copied only to a path
/// that was chosen when the probe of that very path found nothing, or when
/// every numbered name was taken and the search fell back.
pub proof fn lemma_destination_was_free(
    state: RelocationModel,
    reply: ReplyModel,
    suffix: Seq<char>,
)
    requires
        state.phase is Probing,
        state.step(reply, suffix).phase is Renaming,
    ensures
        ({
            let dest = state.step(reply, suffix).phase->Renaming_dest;
            ||| reply == ReplyModel::Exists(false) && state.request() == RequestModel::Exists(dest)
            ||| state.needs_suffix(reply) && dest == fallback_path(
                state.dest_dir,
                state.phase->Probing_name,
                suffix,
            )
        }),
        state.step(reply, suffix).phase->Renaming_source == state.phase->Probing_source,
{
}

/// A file whose name and all its numbered names are taken is moved to the
/// fallback name: the last probe leads to the rename, not to a failure, and
/// the file is counted when the rename succeeds.
pub proof fn lemma_fallback_is_moved(state: RelocationModel, suffix: Seq<char>)
    requires
        state.phase is Probing,
        state.phase->Probing_attempt == MAX_ATTEMPTS,
    ensures
        ({
            let chosen = state.step(ReplyModel::Exists(true), suffix);
            &&& chosen.phase == (PhaseModel::Renaming {
                source: state.phase->Probing_source,
                dest: fallback_path(state.dest_dir, state.phase->Probing_name, suffix),
            })
            &&& chosen.failed == state.failed
            &&& chosen.step(ReplyModel::Done, suffix).moved == state.moved + 1
            &&& chosen.step(ReplyModel::Done, suffix).failed == state.failed
        }),
{
}

/// While a name is taken, the numbered names are probed in ascending order,
/// one after the other.
pub proof fn lemma_probes_ascend(state: RelocationModel, suffix: Seq<char>)
    requires
        state.phase is Probing,
        state.phase->Probing_attempt < MAX_ATTEMPTS,
    ensures
        state.step(ReplyModel::Exists(true), suffix).request() == RequestModel::Exists(
            candidate_path(
                state.dest_dir,
                state.phase->Probing_name,
                state.phase->Probing_attempt + 1,
            ),
        ),
{
}

/// While the probes are answered truly, the search stays on its way to the
/// first candidate that is not taken: after each answer the file is either
/// being renamed to the path on which [`search_from`] ends, or the next
/// candidate is being probed and the search from there has the same end.
pub proof fn lemma_probing_leads_to_search_end(
    state: RelocationModel,
    taken: spec_fn(FilePathModel) -> bool,
    suffix: Seq<char>,
)
    requires
        state.phase is Probing,
    ensures
        ({
            let source = state.phase->Probing_source;
            let name = state.phase->Probing_name;
            let attempt = state.phase->Probing_attempt;
            let end = search_from(state.dest_dir, name, attempt, taken, suffix);
            let answer = ReplyModel::Exists(taken(candidate_path(state.dest_dir, name, attempt)));
            let next = state.step(answer, suffix);
            &&& state.request() == RequestModel::Exists(
                candidate_path(state.dest_dir, name, attempt),
            )
            &&& next.dest_dir == state.dest_dir
            &&& {
                ||| next.phase == (PhaseModel::Renaming { source, dest: end })
                ||| {
                    &&& attempt < MAX_ATTEMPTS
                    &&& next.phase == (PhaseModel::Probing { source, name, attempt: attempt + 1 })
                    &&& search_from(state.dest_dir, name, attempt + 1, taken, suffix) == end
                }
            }
        }),
{
    lemma_search_step_agrees(
        state.dest_dir,
        state.phase->Probing_name,
        state.phase->Probing_attempt,
        taken,
        suffix,
    );
}

} // verus!
