//! What reading gives, told in one piece.
//!
//! A [`World`] holds what the driver of a reader can find: the text of the
//! primary fragment, the record of every path, what parsing makes of every
//! text, and what the expansion of a path gives. [`World::read`] says what
//! reading gives in such a world, by folds over the fragments and the slices.
//! A reader whose driver answers as the world has it ends with just that.

use crate::config_file::{absorbed, reads_replace_field, ConfigFileView};
use crate::fragment::{left_split, migrated, INCLUDE_MARKER};
use crate::reader::{follows, Phase, ReadError, ReaderView, ReplyView, RequestView};
use crate::sections::tools::GitView;
use crate::strategy::replaced;
use vstd::prelude::*;

verus! {

/// What the driver of a reader can find.
pub struct World {
    /// The text of the primary fragment, or nothing where it cannot be read.
    pub primary_text: Option<Seq<char>>,
    /// The record of the fragment at a path, or nothing where the file
    /// cannot be read or is no fragment.
    pub loaded: spec_fn(Seq<char>) -> Option<ConfigFileView>,
    /// The paths of the include table of a text in the order in which they
    /// are listed, or nothing where the text is no valid document.
    pub paths: spec_fn(Seq<char>) -> Option<Seq<Seq<char>>>,
    /// The record of a text, or nothing where the text is no fragment.
    pub parsed: spec_fn(Seq<char>) -> Option<ConfigFileView>,
    /// The path that the expansion of a path gives.
    pub expanded: spec_fn(Seq<char>) -> Seq<char>,
}

impl World {
    /// The record after the fragments at `paths` were loaded into it, one
    /// after the other.
    pub open spec fn fold(self, record: ConfigFileView, paths: Seq<Seq<char>>) -> ConfigFileView
        decreases paths.len(),
    {
        if paths.len() == 0 {
            record
        } else {
            self.fold(absorbed(record, (self.loaded)(paths[0])), paths.drop_first())
        }
    }

    /// What the first of the fragments at `paths` that sets a field says of
    /// it. A fragment that cannot be had says nothing.
    pub open spec fn first_opinion<T>(self, field: spec_fn(ConfigFileView) -> Option<T>, paths: Seq<Seq<char>>) -> Option<
        T,
    >
        decreases paths.len(),
    {
        if paths.len() == 0 {
            None
        } else {
            let here = match (self.loaded)(paths[0]) {
                Some(fragment) => field(fragment),
                None => None,
            };
            if here is Some {
                here
            } else {
                self.first_opinion(field, paths.drop_first())
            }
        }
    }

    /// The paths of an include table in the order of loading: the last one
    /// first, each one expanded.
    pub open spec fn loading_order(self, paths: Seq<Seq<char>>) -> Seq<Seq<char>> {
        paths.reverse().map_values(self.expanded)
    }

    /// The record after one slice: first the fragments that the slice
    /// includes are loaded into it, then the slice itself. There is none where
    /// the slice is no valid document.
    pub open spec fn fold_slice(self, record: ConfigFileView, slice: Seq<char>) -> Option<ConfigFileView> {
        match (self.paths)(slice) {
            Some(paths) => Some(absorbed(self.fold(record, self.loading_order(paths)), (self.parsed)(slice))),
            None => None,
        }
    }

    /// The record after the slices, one after the other. There is none where
    /// one of them is no valid document.
    pub open spec fn fold_slices(self, record: ConfigFileView, slices: Seq<Seq<char>>) -> Option<ConfigFileView>
        decreases slices.len(),
    {
        if slices.len() == 0 {
            Some(record)
        } else {
            match self.fold_slice(record, slices[0]) {
                Some(next) => self.fold_slices(next, slices.drop_first()),
                None => None,
            }
        }
    }

    /// The record with every path of the repositories of the Git step
    /// expanded.
    pub open spec fn expand_repos(self, record: ConfigFileView) -> ConfigFileView {
        match record.git {
            Some(git) => match git.repos {
                Some(repos) => ConfigFileView {
                    git: Some(GitView { repos: Some(repos.map_values(self.expanded)), ..git }),
                    ..record
                },
                None => record,
            },
            None => record,
        }
    }

    /// How reading ends once all slices are done.
    pub open spec fn finish(self, record: Option<ConfigFileView>) -> Result<ConfigFileView, ReadError> {
        match record {
            Some(record) => Ok(self.expand_repos(record)),
            None => Err(ReadError::Malformed),
        }
    }

    /// What reading gives once the text of the primary fragment is in its
    /// final form.
    pub open spec fn read_text(self, record: ConfigFileView, text: Seq<char>) -> Result<ConfigFileView, ReadError> {
        match left_split(INCLUDE_MARKER@, text) {
            Some(slices) => self.finish(self.fold_slices(record, slices)),
            None => Err(ReadError::Marker),
        }
    }

    /// What reading gives once the additional fragments are loaded.
    pub open spec fn read_primary(self, record: ConfigFileView, primary: Seq<char>) -> Result<
        ConfigFileView,
        ReadError,
    > {
        if primary.len() == 0 {
            Ok(record)
        } else {
            match self.primary_text {
                Some(contents) => self.read_text(record, migrated(contents)),
                None => Err(ReadError::Unreadable),
            }
        }
    }

    /// What reading gives: the additional fragments are loaded in their
    /// order; then the primary fragment is read, migrated and cut into slices,
    /// and the slices are loaded in their order, each behind the fragments that
    /// it includes; at last the repositories of the Git step are expanded.
    /// Without a primary fragment the record of the additional ones is all.
    pub open spec fn read(self, primary: Seq<char>, additional: Seq<Seq<char>>) -> Result<
        ConfigFileView,
        ReadError,
    > {
        self.read_primary(self.fold(ConfigFileView::empty(), additional), primary)
    }

    /// Whether `reply` is what this world answers to the request of `pre`,
    /// and the expansions on the way to `post` are those of this world.
    pub open spec fn agrees(self, pre: ReaderView, reply: ReplyView, post: ReaderView) -> bool {
        &&& match pre.request() {
            RequestView::Load { path } => reply == ReplyView::Fragment((self.loaded)(path)),
            RequestView::Read { path } => reply == ReplyView::Text(self.primary_text),
            RequestView::Write { path, contents } => reply == ReplyView::Written,
            RequestView::ParsePaths { text } => reply == ReplyView::Paths((self.paths)(text)),
            RequestView::Parse { text } => reply == ReplyView::Fragment((self.parsed)(text)),
            RequestView::Finished => true,
        }
        &&& match (pre.phase, reply) {
            (Phase::SlicePaths(_), ReplyView::Paths(Some(paths))) => post.included == self.loading_order(paths),
            (Phase::SliceOwn(i), ReplyView::Fragment(loaded)) => i + 1 < pre.slices.len() || post.result
                == self.expand_repos(pre.absorbed(loaded)),
            _ => true,
        }
    }

    /// What reading gives from a state on.
    pub open spec fn remaining(self, state: ReaderView) -> Result<ConfigFileView, ReadError> {
        match state.phase {
            Phase::Directory(k) => self.read_primary(
                self.fold(state.result, state.additional.skip(k as int)),
                state.primary,
            ),
            Phase::Primary => self.read_primary(state.result, state.primary),
            Phase::Persist => self.read_text(state.result, state.text),
            Phase::SlicePaths(i) => self.finish(self.fold_slices(state.result, state.slices.skip(i as int))),
            Phase::Included(i, j) => self.finish(
                self.fold_slices(
                    absorbed(
                        self.fold(state.result, state.included.skip(j as int)),
                        (self.parsed)(state.slices[i as int]),
                    ),
                    state.slices.skip(i + 1),
                ),
            ),
            Phase::SliceOwn(i) => self.finish(
                self.fold_slices(
                    absorbed(state.result, (self.parsed)(state.slices[i as int])),
                    state.slices.skip(i + 1),
                ),
            ),
            Phase::Done => Ok(state.result),
            Phase::Failed(error) => Err(error),
        }
    }
}

/// Loading the fragments from a position on is loading the one at the
/// position and then those behind it.
proof fn lemma_fold_from(world: World, record: ConfigFileView, paths: Seq<Seq<char>>, from: int)
    requires
        0 <= from <= paths.len(),
    ensures
        world.fold(record, paths.skip(from)) == if from < paths.len() {
            world.fold(absorbed(record, (world.loaded)(paths[from])), paths.skip(from + 1))
        } else {
            record
        },
{
    if from < paths.len() {
        assert(paths.skip(from).drop_first() =~= paths.skip(from + 1));
    }
}

/// Loading one more fragment behind others is loading the others and then
/// the one.
proof fn lemma_fold_push(world: World, record: ConfigFileView, paths: Seq<Seq<char>>, path: Seq<char>)
    ensures
        world.fold(record, paths.push(path)) == absorbed(world.fold(record, paths), (world.loaded)(path)),
    decreases paths.len(),
{
    let all = paths.push(path);
    if paths.len() == 0 {
        assert(world.fold(record, all) == world.fold(absorbed(record, (world.loaded)(all[0])), paths));
    } else {
        assert(all.drop_first() =~= paths.drop_first().push(path));
        assert(all[0] == paths[0]);
        lemma_fold_push(world, absorbed(record, (world.loaded)(paths[0])), paths.drop_first(), path);
    }
}

/// Among the fragments that a slice includes, one that is listed earlier wins
/// over all that are listed later.
///
/// The fragments are loaded from the last one of `paths` to the first. A field
/// that is merged by `Replace` then holds what the first fragment that sets it
/// says, and is left as it was where none sets it.
pub proof fn law_earlier_include_wins<T>(
    world: World,
    record: ConfigFileView,
    paths: Seq<Seq<char>>,
    field: spec_fn(ConfigFileView) -> Option<T>,
)
    requires
        reads_replace_field(field),
    ensures
        field(world.fold(record, paths.reverse())) == replaced(field(record), world.first_opinion(field, paths)),
    decreases paths.len(),
{
    if paths.len() > 0 {
        let rest = paths.drop_first();
        assert(paths.reverse() =~= rest.reverse().push(paths[0]));
        lemma_fold_push(world, record, rest.reverse(), paths[0]);
        law_earlier_include_wins(world, record, rest, field);
    }
}

/// Of the fragments that are loaded one after the other, one that is loaded
/// later wins over all that are loaded earlier: a field that is merged by
/// `Replace` holds what the last fragment that sets it says.
pub proof fn law_later_fragment_wins<T>(
    world: World,
    record: ConfigFileView,
    paths: Seq<Seq<char>>,
    field: spec_fn(ConfigFileView) -> Option<T>,
)
    requires
        reads_replace_field(field),
    ensures
        field(world.fold(record, paths)) == replaced(field(record), world.first_opinion(field, paths.reverse())),
{
    assert(paths.reverse().reverse() =~= paths);
    law_earlier_include_wins(world, record, paths.reverse(), field);
}

/// A slice wins over the fragments that it includes: a field that is merged
/// by `Replace` holds what the slice says of it; where the slice says nothing
/// or is no fragment, what the first of the included fragments that sets it
/// says; and is left as it was where none of them sets it.
pub proof fn law_slice_wins<T>(
    world: World,
    record: ConfigFileView,
    slice: Seq<char>,
    field: spec_fn(ConfigFileView) -> Option<T>,
)
    requires
        reads_replace_field(field),
        (world.paths)(slice) is Some,
    ensures
        world.fold_slice(record, slice) matches Some(after) && field(after) == replaced(
            replaced(
                field(record),
                world.first_opinion(field, (world.paths)(slice).unwrap().map_values(world.expanded)),
            ),
            match (world.parsed)(slice) {
                Some(own) => field(own),
                None => None,
            },
        ),
{
    let paths = (world.paths)(slice).unwrap();
    let expanded = paths.map_values(world.expanded);
    assert(world.loading_order(paths) =~= expanded.reverse());
    law_earlier_include_wins(world, record, expanded, field);
}

/// Loading the slices from a position on is loading the one at the position
/// and then those behind it.
proof fn lemma_fold_slices_from(world: World, record: ConfigFileView, slices: Seq<Seq<char>>, from: int)
    requires
        0 <= from <= slices.len(),
    ensures
        world.fold_slices(record, slices.skip(from)) == if from < slices.len() {
            match world.fold_slice(record, slices[from]) {
                Some(next) => world.fold_slices(next, slices.skip(from + 1)),
                None => None,
            }
        } else {
            Some(record)
        },
{
    if from < slices.len() {
        assert(slices.skip(from).drop_first() =~= slices.skip(from + 1));
    }
}

/// A step of the reader that agrees with the world leaves what reading gives
/// as it was.
pub proof fn law_step_keeps_outcome(world: World, pre: ReaderView, reply: ReplyView, post: ReaderView)
    requires
        pre.wf(),
        follows(pre, reply, post),
        world.agrees(pre, reply, post),
    ensures
        world.remaining(post) == world.remaining(pre),
{
    match (pre.phase, reply) {
        (Phase::Directory(k), ReplyView::Fragment(loaded)) => {
            lemma_fold_from(world, pre.result, pre.additional, k as int);
            lemma_fold_from(world, pre.absorbed(loaded), pre.additional, k + 1);
        },
        (Phase::Primary, ReplyView::Text(Some(contents))) => {
            let text = migrated(contents);
            if let Some(slices) = left_split(INCLUDE_MARKER@, text) {
                assert(slices.skip(0) =~= slices);
            }
        },
        (Phase::Persist, ReplyView::Written) => {
            if let Some(slices) = left_split(INCLUDE_MARKER@, pre.text) {
                assert(slices.skip(0) =~= slices);
            }
        },
        (Phase::SlicePaths(i), ReplyView::Paths(Some(paths))) => {
            lemma_fold_slices_from(world, pre.result, pre.slices, i as int);
            assert(post.included.skip(0) =~= post.included);
            if paths.len() == 0 {
            }
        },
        (Phase::SlicePaths(i), ReplyView::Paths(None)) => {
            lemma_fold_slices_from(world, pre.result, pre.slices, i as int);
        },
        (Phase::Included(i, j), ReplyView::Fragment(loaded)) => {
            lemma_fold_from(world, pre.result, pre.included, j as int);
            lemma_fold_from(world, pre.absorbed(loaded), pre.included, j + 1);
        },
        (Phase::SliceOwn(i), ReplyView::Fragment(loaded)) => {
            lemma_fold_slices_from(world, pre.absorbed(loaded), pre.slices, i + 1);
        },
        _ => {},
    }
}

/// Whether the states are those of a reader that starts on the given fragments
/// and whose driver answers every request as the world has it.
pub open spec fn is_run(
    world: World,
    primary: Seq<char>,
    additional: Seq<Seq<char>>,
    states: Seq<ReaderView>,
    replies: Seq<ReplyView>,
) -> bool {
    &&& states.len() == replies.len() + 1
    &&& states[0] == ReaderView::start(primary, additional)
    &&& forall|i: int| 0 <= i < states.len() ==> (#[trigger] states[i]).wf()
    &&& forall|i: int|
        0 <= i < replies.len() ==> follows(states[i], #[trigger] replies[i], states[i + 1]) && world.agrees(
            states[i],
            replies[i],
            states[i + 1],
        )
}

/// A reader whose driver answers as the world has it ends with what reading
/// gives in that world: a reader that has no request left holds the record
/// that the folds describe, or has failed for the reason that they give.
pub proof fn law_run_gives_read(
    world: World,
    primary: Seq<char>,
    additional: Seq<Seq<char>>,
    states: Seq<ReaderView>,
    replies: Seq<ReplyView>,
)
    requires
        is_run(world, primary, additional, states, replies),
    ensures
        world.remaining(states.last()) == world.read(primary, additional),
        states.last().request() == RequestView::Finished ==> match world.read(primary, additional) {
            Ok(record) => states.last().phase == Phase::Done && states.last().result == record,
            Err(error) => states.last().phase == Phase::Failed(error),
        },
    decreases replies.len(),
{
    if replies.len() == 0 {
        assert(additional.skip(0) =~= additional);
        lemma_fold_from(world, ConfigFileView::empty(), additional, additional.len() as int);
    } else {
        let before = states.drop_last();
        assert(is_run(world, primary, additional, before, replies.drop_last())) by {
            assert forall|i: int| 0 <= i < before.len() implies (#[trigger] before[i]).wf() by {
                assert(states[i].wf());
            }
            assert forall|i: int| 0 <= i < replies.drop_last().len() implies follows(
                before[i],
                #[trigger] replies.drop_last()[i],
                before[i + 1],
            ) && world.agrees(before[i], replies.drop_last()[i], before[i + 1]) by {
                assert(follows(states[i], replies[i], states[i + 1]));
            }
        }
        law_run_gives_read(world, primary, additional, before, replies.drop_last());
        let last = replies.len() - 1;
        law_step_keeps_outcome(world, states[last], replies[last], states[last + 1]);
    }
}

} // verus!
