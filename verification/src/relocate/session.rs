//! The relocation as a session: it names the next request, and is advanced
//! with the reply.

use crate::clock::{is_stamp, uuid};
use crate::message::{
    create_failed_text, move_failed_text, no_file_name_text, root_unavailable_text,
    root_without_parent_text, source_not_removed_text, source_outside_text,
    source_unavailable_text,
};
use crate::name::candidate_name;
use crate::outcome::{MoveFailure, MoveResult, MoveResultModel, Reply, Request};
use crate::path::FilePath;
use crate::probe::{next_dest_path, NameSearch, MAX_ATTEMPTS};
use crate::relocate::laws::{lemma_start_inv, lemma_step_inv};
use crate::relocate::model::{PhaseModel, RelocationModel};
use vstd::prelude::*;
use vstd::string::*;

verus! {

/// Where a relocation stands; see [`PhaseModel`].
enum Phase {
    ResolvingRoot,
    CreatingDest,
    ResolvingSource,
    Probing { source: FilePath, name: String, attempt: u32 },
    Renaming { source: FilePath, dest: FilePath },
    Copying { source: FilePath, dest: FilePath, rename_error: String },
    Removing { source: FilePath },
    Done,
    Aborted(String),
}

impl Phase {
    /// What the phase stands for.
    spec fn model(self) -> PhaseModel {
        match self {
            Phase::ResolvingRoot => PhaseModel::ResolvingRoot,
            Phase::CreatingDest => PhaseModel::CreatingDest,
            Phase::ResolvingSource => PhaseModel::ResolvingSource,
            Phase::Probing { source, name, attempt } => PhaseModel::Probing {
                source: source@,
                name: name@,
                attempt: attempt as nat,
            },
            Phase::Renaming { source, dest } => PhaseModel::Renaming { source: source@, dest: dest@ },
            Phase::Copying { source, dest, rename_error } => PhaseModel::Copying {
                source: source@,
                dest: dest@,
                rename_error: rename_error@,
            },
            Phase::Removing { source } => PhaseModel::Removing { source: source@ },
            Phase::Done => PhaseModel::Done,
            Phase::Aborted(error) => PhaseModel::Aborted(error@),
        }
    }
}

/// The state of a relocation; see [`RelocationModel`].
struct State {
    paths: Vec<String>,
    import_dir: String,
    sibling: String,
    root: FilePath,
    dest_dir: FilePath,
    index: usize,
    moved: usize,
    failed: Vec<MoveFailure>,
    phase: Phase,
}

impl State {
    /// What the state stands for.
    spec fn model(self) -> RelocationModel {
        RelocationModel {
            paths: self.paths.deep_view(),
            import_dir: self.import_dir@,
            sibling: self.sibling@,
            root: self.root@,
            dest_dir: self.dest_dir@,
            index: self.index as nat,
            moved: self.moved as nat,
            failed: self.failed.deep_view(),
            phase: self.phase.model(),
        }
    }

    /// The phase in which the file at position `index` is taken up.
    fn phase_at(&self, index: usize) -> (phase: Phase)
        ensures
            phase.model() == self.model().phase_at(index as nat),
    {
        if index < self.paths.len() {
            Phase::ResolvingSource
        } else {
            Phase::Done
        }
    }

    /// Counts the current file as moved and takes up the next.
    fn count_moved(self) -> (next: State)
        requires
            self.model().inv(),
            self.model().in_file(),
        ensures
            next.model() == self.model().count_moved(),
    {
        let mut next = self;
        assert(next.index < next.paths.len()) by {
            assert(next.model().paths.len() == next.paths.len());
        }
        let phase = next.phase_at(next.index + 1);
        next.moved = next.moved + 1;
        next.index = next.index + 1;
        next.phase = phase;
        next
    }

    /// Lists the current file as failed and takes up the next.
    fn list_failed(self, reason: String) -> (next: State)
        requires
            self.model().inv(),
            self.model().in_file(),
        ensures
            next.model() == self.model().list_failed(reason@),
    {
        let mut next = self;
        assert(next.index < next.paths.len()) by {
            assert(next.model().paths.len() == next.paths.len());
        }
        let phase = next.phase_at(next.index + 1);
        let path = next.paths[next.index].clone();
        let ghost before = next.failed.deep_view();
        let failure = MoveFailure { path, reason };
        next.failed.push(failure);
        assert(next.failed.deep_view() =~= before.push(failure@));
        next.index = next.index + 1;
        next.phase = phase;
        next
    }

    /// Ends the relocation with a setup error.
    fn abort(self, error: String) -> (next: State)
        ensures
            next.model() == self.model().abort(error@),
    {
        let mut next = self;
        next.phase = Phase::Aborted(error);
        next
    }

    /// The state after `reply`.
    fn step_with(self, reply: Reply, suffix: &str) -> (next: State)
        requires
            self.model().inv(),
        ensures
            next.model() == self.model().step(reply@, suffix@),
    {
        let mut state = self;
        // The match takes the phase apart. A branch that leaves the phase as it
        // was, or that hands the state on whole, puts it together again first.
        match state.phase {
            Phase::ResolvingRoot => match reply {
                Reply::Resolved(root) => match root.parent() {
                    Some(parent) => {
                        state.dest_dir = parent.join(state.sibling.as_str());
                        state.root = root;
                        state.phase = Phase::CreatingDest;
                        state
                    },
                    None => state.abort(root_without_parent_text()),
                },
                Reply::Failed(error) => state.abort(root_unavailable_text(error.as_str())),
                _ => state,
            },
            Phase::CreatingDest => match reply {
                Reply::Done => {
                    state.phase = state.phase_at(0);
                    state
                },
                Reply::Failed(error) => {
                    let text = create_failed_text(&state.dest_dir, error.as_str());
                    state.abort(text)
                },
                _ => state,
            },
            Phase::ResolvingSource => match reply {
                Reply::Resolved(source) => {
                    if !source.starts_with(&state.root) {
                        state.list_failed(source_outside_text())
                    } else {
                        match source.file_name() {
                            Some(name) => {
                                state.phase = Phase::Probing { source, name, attempt: 0 };
                                state
                            },
                            None => state.list_failed(no_file_name_text()),
                        }
                    }
                },
                Reply::Failed(error) => state.list_failed(source_unavailable_text(error.as_str())),
                _ => state,
            },
            Phase::Probing { source, name, attempt } => match reply {
                Reply::Exists(taken) => {
                    match next_dest_path(&state.dest_dir, name.as_str(), attempt, taken, suffix) {
                        NameSearch::Probe { attempt: next, path } => {
                            state.phase = Phase::Probing { source, name, attempt: next };
                            state
                        },
                        NameSearch::Chosen(dest) => {
                            state.phase = Phase::Renaming { source, dest };
                            state
                        },
                    }
                },
                _ => {
                    state.phase = Phase::Probing { source, name, attempt };
                    state
                },
            },
            Phase::Renaming { source, dest } => match reply {
                Reply::Done => {
                    state.phase = Phase::Renaming { source, dest };
                    state.count_moved()
                },
                Reply::Failed(error) => {
                    state.phase = Phase::Copying { source, dest, rename_error: error };
                    state
                },
                _ => {
                    state.phase = Phase::Renaming { source, dest };
                    state
                },
            },
            Phase::Copying { source, dest, rename_error } => match reply {
                Reply::Done => {
                    state.phase = Phase::Removing { source };
                    state
                },
                Reply::Failed(error) => {
                    let text = move_failed_text(rename_error.as_str(), error.as_str());
                    state.phase = Phase::Copying { source, dest, rename_error };
                    state.list_failed(text)
                },
                _ => {
                    state.phase = Phase::Copying { source, dest, rename_error };
                    state
                },
            },
            Phase::Removing { source } => match reply {
                Reply::Done => {
                    state.phase = Phase::Removing { source };
                    state.count_moved()
                },
                Reply::Failed(error) => {
                    let text = source_not_removed_text(error.as_str());
                    state.phase = Phase::Removing { source };
                    state.list_failed(text)
                },
                _ => {
                    state.phase = Phase::Removing { source };
                    state
                },
            },
            Phase::Done => state,
            Phase::Aborted(error) => {
                state.phase = Phase::Aborted(error);
                state
            },
        }
    }
}

/// A relocation in progress.
///
/// The caller performs [`Self::request`], passes what it found to
/// [`Self::step`], and goes on until the request is `Finished`; then
/// [`Self::outcome`] holds the report. Files are handled one at a time, in the
/// order given, and a file that fails does not end the relocation.
///
/// Two relocations into one destination directory must not run at the same
/// time: a name that was probed free may be taken before the file is moved.
pub struct Relocation {
    state: State,
}

impl View for Relocation {
    type V = RelocationModel;

    closed spec fn view(&self) -> RelocationModel {
        self.state.model()
    }
}

/// What a report stands for.
pub open spec fn report_model(report: Option<Result<MoveResult, String>>) -> Option<
    Result<MoveResultModel, Seq<char>>,
> {
    match report {
        Some(Ok(result)) => Some(Ok(result@)),
        Some(Err(error)) => Some(Err(error@)),
        None => None,
    }
}

impl Relocation {
    /// Every relocation meets the invariant of its model.
    #[verifier::type_invariant]
    spec fn well_formed(self) -> bool {
        self.state.model().inv()
    }

    /// Begins the relocation of `paths`, which are to lie inside `import_dir`,
    /// into the folder named `sibling_folder_name` beside that directory.
    pub fn new(paths: Vec<String>, import_dir: String, sibling_folder_name: String) -> (session:
        Relocation)
        ensures
            session@ == RelocationModel::start(
                paths.deep_view(),
                import_dir@,
                sibling_folder_name@,
            ),
            session@.inv(),
    {
        proof {
            lemma_start_inv(paths.deep_view(), import_dir@, sibling_folder_name@);
        }
        let state = State {
            paths,
            import_dir,
            sibling: sibling_folder_name,
            root: FilePath::new(String::new(), Vec::new()),
            dest_dir: FilePath::new(String::new(), Vec::new()),
            index: 0,
            moved: 0,
            failed: Vec::new(),
            phase: Phase::ResolvingRoot,
        };
        assert(state.model() =~= RelocationModel::start(
            paths.deep_view(),
            import_dir@,
            sibling_folder_name@,
        )) by {
            assert(state.root@.parts =~= Seq::<Seq<char>>::empty());
            assert(state.dest_dir@.parts =~= Seq::<Seq<char>>::empty());
            assert(state.failed.deep_view() =~= Seq::empty());
        }
        Relocation { state }
    }

    /// The request that is out, as [`RelocationModel::request`] states it.
    pub fn request(&self) -> (request: Request)
        ensures
            request@ == self@.request(),
            self@.inv(),
    {
        proof {
            use_type_invariant(self);
        }
        let state = &self.state;
        match &state.phase {
            Phase::ResolvingRoot => Request::Canonicalize(state.import_dir.clone()),
            Phase::CreatingDest => Request::CreateDirAll(state.dest_dir.duplicate()),
            Phase::ResolvingSource => {
                assert(state.index < state.paths.len()) by {
                    assert(state.model().paths.len() == state.paths.len());
                }
                Request::Canonicalize(state.paths[state.index].clone())
            },
            Phase::Probing { source, name, attempt } => {
                let candidate = candidate_name(name.as_str(), *attempt);
                Request::Exists(state.dest_dir.join(candidate.as_str()))
            },
            Phase::Renaming { source, dest } => Request::Rename {
                from: source.duplicate(),
                to: dest.duplicate(),
            },
            Phase::Copying { source, dest, rename_error } => Request::Copy {
                from: source.duplicate(),
                to: dest.duplicate(),
            },
            Phase::Removing { source } => Request::RemoveFile(source.duplicate()),
            Phase::Done => Request::Finished,
            Phase::Aborted(error) => Request::Finished,
        }
    }

    /// Whether the relocation is over: its request is `Finished`.
    pub fn is_finished(&self) -> (finished: bool)
        ensures
            finished == self@.outcome().is_some(),
            finished == (self@.request() is Finished),
    {
        match &self.state.phase {
            Phase::Done => true,
            Phase::Aborted(error) => true,
            _ => false,
        }
    }

    /// Whether the step for `reply` falls back to a clock suffix.
    pub fn needs_suffix(&self, reply: &Reply) -> (needed: bool)
        ensures
            needed == self@.needs_suffix(reply@),
    {
        match &self.state.phase {
            Phase::Probing { source, name, attempt } => match reply {
                Reply::Exists(taken) => *taken && *attempt >= MAX_ATTEMPTS,
                _ => false,
            },
            _ => false,
        }
    }

    /// The state after `reply`, with the fallback suffix given, as
    /// [`RelocationModel::step`] states it.
    pub fn step_with(self, reply: Reply, suffix: &str) -> (next: Relocation)
        ensures
            next@ == self@.step(reply@, suffix@),
            next@.inv(),
    {
        proof {
            use_type_invariant(&self);
            lemma_step_inv(self@, reply@, suffix@);
        }
        Relocation { state: self.state.step_with(reply, suffix) }
    }

    /// The state after `reply`, as [`RelocationModel::step`] states it. Where
    /// the search for a name falls back, the suffix is read from the clock.
    pub fn step(self, reply: Reply) -> (next: Relocation)
        ensures
            !self@.needs_suffix(reply@) ==> next@ == self@.step(reply@, Seq::empty()),
            self@.needs_suffix(reply@) ==> exists|suffix: Seq<char>|
                is_stamp(suffix) && next@ == #[trigger] self@.step(reply@, suffix),
            next@.inv(),
    {
        if self.needs_suffix(&reply) {
            let suffix = uuid();
            self.step_with(reply, suffix.as_str())
        } else {
            self.step_with(reply, "")
        }
    }

    /// The report of a relocation that is over, as
    /// [`RelocationModel::outcome`] states it; `None` before that.
    pub fn outcome(self) -> (report: Option<Result<MoveResult, String>>)
        ensures
            report_model(report) == self@.outcome(),
    {
        match self.state.phase {
            Phase::Done => Some(
                Ok(MoveResult { moved_count: self.state.moved, failures: self.state.failed }),
            ),
            Phase::Aborted(error) => Some(Err(error)),
            _ => None,
        }
    }
}

} // verus!
