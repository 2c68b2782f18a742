//! Reading the fragments of a run.
//!
//! Reading alternates between work on files, which the reader cannot do, and
//! decisions, which are all it does. A [`Reader`] holds what was decided so
//! far. It names the work that it needs next as a [`Request`]; a driver does the
//! work and answers with a [`Reply`], by which the reader advances. Whatever the
//! driver finds, the order of the requests and the use of every answer are the
//! reader's.

use crate::config_file::{absorbed, reads_replace_field, ConfigFile, ConfigFileView};
use crate::fragment::{
    all_expand_to, contains, ensure_misc_is_present, expand_all, expands_to, left_split, migrated, slices,
    INCLUDE_MARKER, LEGACY_MARKER,
};
use crate::sections::tools::GitView;
use crate::strategy::{lines, replaced, section, text, texts, Merge};
use vstd::prelude::*;

verus! {

/// Why reading gave no record.
#[derive(Clone, Copy, Debug, PartialEq, Eq, Structural)]
pub enum ReadError {
    /// The primary fragment could not be read.
    Unreadable,
    /// A slice of the primary fragment is no valid document.
    Malformed,
    /// The expression that finds the include tables was refused.
    Marker,
}

/// Where the reader stands.
#[derive(Clone, Copy, Debug, PartialEq, Eq, Structural)]
pub enum Phase {
    /// The additional fragment of this position is being loaded.
    Directory(usize),
    /// The text of the primary fragment is being read.
    Primary,
    /// The migrated text of the primary fragment is being written back.
    Persist,
    /// The include table of the slice of this position is being parsed.
    SlicePaths(usize),
    /// For the slice of the first position, the included fragment of the
    /// second position is being loaded.
    Included(usize, usize),
    /// The slice of this position is being parsed as a record.
    SliceOwn(usize),
    /// The record is complete.
    Done,
    /// Reading has failed.
    Failed(ReadError),
}

/// The work that the reader needs next.
#[derive(Debug)]
pub enum Request {
    /// Read the file at `path` and parse it as a fragment; answered by
    /// [`Reply::Fragment`], with nothing where either fails.
    Load { path: String },
    /// Read the file at `path`; answered by [`Reply::Text`], with nothing where
    /// that fails.
    Read { path: String },
    /// Write `contents` to the file at `path`; answered by [`Reply::Written`].
    Write { path: String, contents: String },
    /// Parse `text` for the paths of its include table alone; answered by
    /// [`Reply::Paths`]: with nothing where the text is no valid document, and
    /// with no path where it holds no such table.
    ParsePaths { text: String },
    /// Parse `text` as a fragment; answered by [`Reply::Fragment`], with
    /// nothing where that fails.
    Parse { text: String },
    /// Nothing: reading has ended.
    Finished,
}

/// What a request holds.
pub enum RequestView {
    Load { path: Seq<char> },
    Read { path: Seq<char> },
    Write { path: Seq<char>, contents: Seq<char> },
    ParsePaths { text: Seq<char> },
    Parse { text: Seq<char> },
    Finished,
}

impl View for Request {
    type V = RequestView;

    open spec fn view(&self) -> RequestView {
        match self {
            Request::Load { path } => RequestView::Load { path: path@ },
            Request::Read { path } => RequestView::Read { path: path@ },
            Request::Write { path, contents } => RequestView::Write { path: path@, contents: contents@ },
            Request::ParsePaths { text } => RequestView::ParsePaths { text: text@ },
            Request::Parse { text } => RequestView::Parse { text: text@ },
            Request::Finished => RequestView::Finished,
        }
    }
}

/// What the driver found.
#[derive(Debug)]
pub enum Reply {
    /// The record of a fragment, or nothing where it could not be had.
    Fragment(Option<ConfigFile>),
    /// The text of a file, or nothing where it could not be read.
    Text(Option<String>),
    /// The file was written.
    Written,
    /// The paths of an include table in the order in which they are listed,
    /// or nothing where the text is no valid document.
    Paths(Option<Vec<String>>),
}

/// What a reply holds.
pub enum ReplyView {
    Fragment(Option<ConfigFileView>),
    Text(Option<Seq<char>>),
    Written,
    Paths(Option<Seq<Seq<char>>>),
}

impl View for Reply {
    type V = ReplyView;

    open spec fn view(&self) -> ReplyView {
        match self {
            Reply::Fragment(record) => ReplyView::Fragment(section(*record)),
            Reply::Text(contents) => ReplyView::Text(text(*contents)),
            Reply::Written => ReplyView::Written,
            Reply::Paths(paths) => ReplyView::Paths(texts(*paths)),
        }
    }
}

/// The state of reading.
#[derive(Debug)]
pub struct Reader {
    phase: Phase,
    result: ConfigFile,
    primary: String,
    additional: Vec<String>,
    text: String,
    slices: Vec<String>,
    included: Vec<String>,
}

/// What a reader holds.
pub struct ReaderView {
    /// Where the reader stands.
    pub phase: Phase,
    /// The record that the fragments loaded so far were folded into.
    pub result: ConfigFileView,
    /// The path of the primary fragment; empty where there is none.
    pub primary: Seq<char>,
    /// The paths of the additional fragments, in the order of loading.
    pub additional: Seq<Seq<char>>,
    /// The text of the primary fragment, once it was read and migrated.
    pub text: Seq<char>,
    /// The slices of that text.
    pub slices: Seq<Seq<char>>,
    /// The fragments that the current slice includes, in the order of loading.
    pub included: Seq<Seq<char>>,
}

impl ReaderView {
    /// Whether the phase fits the rest: the positions that it names exist,
    /// and there is a primary fragment where it is being read. No list is
    /// longer than a list can be.
    pub open spec fn wf(self) -> bool {
        &&& self.additional.len() <= usize::MAX
        &&& self.slices.len() <= usize::MAX
        &&& self.included.len() <= usize::MAX
        &&& match self.phase {
            Phase::Directory(k) => k < self.additional.len(),
            Phase::Primary => self.primary.len() > 0,
            Phase::SlicePaths(i) => i < self.slices.len(),
            Phase::Included(i, j) => i < self.slices.len() && j < self.included.len(),
            Phase::SliceOwn(i) => i < self.slices.len(),
            _ => true,
        }
    }

    /// The reader at its start, for a primary fragment at `primary` (an empty
    /// path where there is none) and additional fragments at `additional`.
    pub open spec fn start(primary: Seq<char>, additional: Seq<Seq<char>>) -> ReaderView {
        ReaderView {
            phase: if additional.len() > 0 {
                Phase::Directory(0)
            } else if primary.len() == 0 {
                Phase::Done
            } else {
                Phase::Primary
            },
            result: ConfigFileView::empty(),
            primary,
            additional,
            text: Seq::empty(),
            slices: Seq::empty(),
            included: Seq::empty(),
        }
    }

    /// The work that the reader needs next.
    pub open spec fn request(self) -> RequestView {
        match self.phase {
            Phase::Directory(k) => RequestView::Load { path: self.additional[k as int] },
            Phase::Primary => RequestView::Read { path: self.primary },
            Phase::Persist => RequestView::Write { path: self.primary, contents: self.text },
            Phase::SlicePaths(i) => RequestView::ParsePaths { text: self.slices[i as int] },
            Phase::Included(_, j) => RequestView::Load { path: self.included[j as int] },
            Phase::SliceOwn(i) => RequestView::Parse { text: self.slices[i as int] },
            Phase::Done => RequestView::Finished,
            Phase::Failed(_) => RequestView::Finished,
        }
    }

    /// The record after a fragment was loaded.
    pub open spec fn absorbed(self, loaded: Option<ConfigFileView>) -> ConfigFileView {
        absorbed(self.result, loaded)
    }

    /// The reader that turns to the primary fragment.
    pub open spec fn at_primary(self) -> ReaderView {
        ReaderView { phase: if self.primary.len() == 0 { Phase::Done } else { Phase::Primary }, ..self }
    }

    /// The reader that has the text of the primary fragment in its final form.
    pub open spec fn cut(self, text: Seq<char>) -> ReaderView {
        match left_split(INCLUDE_MARKER@, text) {
            Some(slices) => ReaderView { phase: Phase::SlicePaths(0), text, slices, ..self },
            None => ReaderView { phase: Phase::Failed(ReadError::Marker), text, ..self },
        }
    }
}

/// Whether `after` is `before` with the shorthand for the home directory
/// expanded in every path of the repositories of the Git step.
pub open spec fn repos_expanded(before: ConfigFileView, after: ConfigFileView) -> bool {
    match before.git {
        Some(git) => match git.repos {
            Some(repos) => exists|expanded: Seq<Seq<char>>|
                #![trigger all_expand_to(repos, expanded)]
                all_expand_to(repos, expanded) && after == (ConfigFileView {
                    git: Some(GitView { repos: Some(expanded), ..git }),
                    ..before
                }),
            None => after == before,
        },
        None => after == before,
    }
}

/// Whether a reader in the state `pre` that gets `reply` is in the state `post`
/// afterwards.
///
/// A reply that does not answer the request of `pre` changes nothing. The
/// expansion of the shorthand for the home directory depends on the
/// environment; here it is held to what is known of it whatever the environment.
pub open spec fn follows(pre: ReaderView, reply: ReplyView, post: ReaderView) -> bool {
    match (pre.phase, reply) {
        (Phase::Directory(k), ReplyView::Fragment(loaded)) => {
            let merged = ReaderView { result: pre.absorbed(loaded), ..pre };
            if k + 1 < pre.additional.len() {
                post == ReaderView { phase: Phase::Directory((k + 1) as usize), ..merged }
            } else {
                post == merged.at_primary()
            }
        },
        (Phase::Primary, ReplyView::Text(None)) => post == ReaderView {
            phase: Phase::Failed(ReadError::Unreadable),
            ..pre
        },
        (Phase::Primary, ReplyView::Text(Some(contents))) => {
            if contains(contents, LEGACY_MARKER@) {
                post == pre.cut(contents)
            } else {
                post == ReaderView { phase: Phase::Persist, text: migrated(contents), ..pre }
            }
        },
        (Phase::Persist, ReplyView::Written) => post == pre.cut(pre.text),
        (Phase::SlicePaths(_), ReplyView::Paths(None)) => post == ReaderView {
            phase: Phase::Failed(ReadError::Malformed),
            ..pre
        },
        (Phase::SlicePaths(i), ReplyView::Paths(Some(paths))) => {
            &&& all_expand_to(paths.reverse(), post.included)
            &&& post == ReaderView {
                phase: if paths.len() > 0 { Phase::Included(i, 0) } else { Phase::SliceOwn(i) },
                included: post.included,
                ..pre
            }
        },
        (Phase::Included(i, j), ReplyView::Fragment(loaded)) => post == ReaderView {
            phase: if j + 1 < pre.included.len() { Phase::Included(i, (j + 1) as usize) } else { Phase::SliceOwn(i) },
            result: pre.absorbed(loaded),
            ..pre
        },
        (Phase::SliceOwn(i), ReplyView::Fragment(loaded)) => {
            if i + 1 < pre.slices.len() {
                post == ReaderView { phase: Phase::SlicePaths((i + 1) as usize), result: pre.absorbed(loaded), ..pre }
            } else {
                &&& repos_expanded(pre.absorbed(loaded), post.result)
                &&& post == ReaderView { phase: Phase::Done, result: post.result, ..pre }
            }
        },
        _ => post == pre,
    }
}

impl View for Reader {
    type V = ReaderView;

    closed spec fn view(&self) -> ReaderView {
        ReaderView {
            phase: self.phase,
            result: self.result@,
            primary: self.primary@,
            additional: lines(self.additional@),
            text: self.text@,
            slices: lines(self.slices@),
            included: lines(self.included@),
        }
    }
}

/// Expands the shorthand for the home directory in the repositories of the Git
/// step.
fn expand_repos(record: &mut ConfigFile)
    ensures
        repos_expanded(old(record)@, final(record)@),
{
    let ghost before = record@;
    match &mut record.git {
        Some(git) => {
            match &mut git.repos {
                Some(repos) => {
                    let expanded = expand_all(repos);
                    proof {
                        assert(all_expand_to(before.git.unwrap().repos.unwrap(), lines(expanded@)));
                    }
                    *repos = expanded;
                },
                None => {},
            }
        },
        None => {},
    }
}

/// The paths of an include table in the order of loading: the last one first,
/// each with the shorthand for the home directory expanded.
fn loading_order(paths: &Vec<String>) -> (included: Vec<String>)
    ensures
        all_expand_to(lines(paths@).reverse(), lines(included@)),
{
    let mut backwards: Vec<String> = Vec::new();
    let mut left: usize = paths.len();
    while left > 0
        invariant
            left <= paths.len(),
            backwards@.len() == paths.len() - left,
            forall|i: int| 0 <= i < backwards@.len() ==> backwards@[i] == paths@[paths.len() - 1 - i],
        decreases left,
    {
        left -= 1;
        backwards.push(paths[left].clone());
    }
    proof {
        assert(lines(backwards@) =~= lines(paths@).reverse());
    }
    expand_all(&backwards)
}

impl Reader {
    #[verifier::type_invariant]
    closed spec fn inv(self) -> bool {
        self@.wf()
    }

    /// A reader for a run with the primary fragment at `primary` (an empty
    /// path where there is none) and the additional fragments at `additional`,
    /// which are loaded first and in their order.
    pub fn new(primary: String, additional: Vec<String>) -> (reader: Reader)
        ensures
            reader@.wf(),
            reader@ == ReaderView::start(primary@, lines(additional@)),
    {
        let phase = if additional.len() > 0 {
            Phase::Directory(0)
        } else if primary.as_str().is_empty() {
            Phase::Done
        } else {
            Phase::Primary
        };
        let reader = Reader {
            phase,
            result: ConfigFile::default(),
            primary,
            additional,
            text: String::new(),
            slices: Vec::new(),
            included: Vec::new(),
        };
        proof {
            assert(reader@.slices =~= Seq::empty());
            assert(reader@.included =~= Seq::empty());
        }
        reader
    }

    /// The work that the reader needs next.
    pub fn request(&self) -> (request: Request)
        ensures
            self@.wf(),
            request@ == self@.request(),
    {
        proof {
            use_type_invariant(self);
        }
        match self.phase {
            Phase::Directory(k) => Request::Load { path: self.additional[k].clone() },
            Phase::Primary => Request::Read { path: self.primary.clone() },
            Phase::Persist => Request::Write { path: self.primary.clone(), contents: self.text.clone() },
            Phase::SlicePaths(i) => Request::ParsePaths { text: self.slices[i].clone() },
            Phase::Included(_, j) => Request::Load { path: self.included[j].clone() },
            Phase::SliceOwn(i) => Request::Parse { text: self.slices[i].clone() },
            Phase::Done => Request::Finished,
            Phase::Failed(_) => Request::Finished,
        }
    }

    /// The reader after the driver's answer.
    pub fn advance(self, reply: Reply) -> (next: Reader)
        ensures
            next@.wf(),
            follows(self@, reply@, next@),
    {
        proof {
            use_type_invariant(&self);
        }
        let ghost pre = self@;
        let Reader { phase, mut result, primary, additional, text, slices, included } = self;
        proof {
            assert(pre.wf());
            assert(pre.additional.len() == additional@.len());
            assert(pre.slices.len() == slices@.len());
            assert(pre.included.len() == included@.len());
        }
        match (phase, reply) {
            (Phase::Directory(k), Reply::Fragment(loaded)) => {
                assert(pre.phase == Phase::Directory(k) && k < additional.len());
                match loaded {
                    Some(record) => result.merge(record),
                    None => {},
                }
                let phase = if k + 1 < additional.len() {
                    Phase::Directory(k + 1)
                } else if primary.as_str().is_empty() {
                    Phase::Done
                } else {
                    Phase::Primary
                };
                Reader { phase, result, primary, additional, text, slices, included }
            },
            (Phase::Primary, Reply::Text(None)) => Reader {
                phase: Phase::Failed(ReadError::Unreadable),
                result,
                primary,
                additional,
                text,
                slices,
                included,
            },
            (Phase::Primary, Reply::Text(Some(contents))) => {
                let mut contents = contents;
                if ensure_misc_is_present(&mut contents) {
                    Reader { phase: Phase::Persist, result, primary, additional, text: contents, slices, included }
                } else {
                    Reader::cut(result, primary, additional, contents, slices, included)
                }
            },
            (Phase::Persist, Reply::Written) => Reader::cut(result, primary, additional, text, slices, included),
            (Phase::SlicePaths(_), Reply::Paths(None)) => Reader {
                phase: Phase::Failed(ReadError::Malformed),
                result,
                primary,
                additional,
                text,
                slices,
                included,
            },
            (Phase::SlicePaths(i), Reply::Paths(Some(paths))) => {
                assert(pre.phase == Phase::SlicePaths(i));
                let included = loading_order(&paths);
                let phase = if included.len() > 0 {
                    Phase::Included(i, 0)
                } else {
                    Phase::SliceOwn(i)
                };
                Reader { phase, result, primary, additional, text, slices, included }
            },
            (Phase::Included(i, j), Reply::Fragment(loaded)) => {
                assert(pre.phase == Phase::Included(i, j) && j < included.len());
                match loaded {
                    Some(record) => result.merge(record),
                    None => {},
                }
                let phase = if j + 1 < included.len() {
                    Phase::Included(i, j + 1)
                } else {
                    Phase::SliceOwn(i)
                };
                Reader { phase, result, primary, additional, text, slices, included }
            },
            (Phase::SliceOwn(i), Reply::Fragment(loaded)) => {
                assert(pre.phase == Phase::SliceOwn(i) && i < slices.len());
                match loaded {
                    Some(record) => result.merge(record),
                    None => {},
                }
                if i + 1 < slices.len() {
                    Reader { phase: Phase::SlicePaths(i + 1), result, primary, additional, text, slices, included }
                } else {
                    expand_repos(&mut result);
                    Reader { phase: Phase::Done, result, primary, additional, text, slices, included }
                }
            },
            // A reply to another request than the pending one.
            (phase, _) => Reader { phase, result, primary, additional, text, slices, included },
        }
    }

    /// The reader that has the text of the primary fragment in its final form.
    fn cut(
        result: ConfigFile,
        primary: String,
        additional: Vec<String>,
        text: String,
        old_slices: Vec<String>,
        included: Vec<String>,
    ) -> (next: Reader)
        ensures
            next@.wf(),
            next@ == (ReaderView {
                phase: Phase::Done,
                result: result@,
                primary: primary@,
                additional: lines(additional@),
                text: text@,
                slices: lines(old_slices@),
                included: lines(included@),
            }).cut(text@),
    {
        proof {
            assert(lines(additional@).len() == additional.len());
            assert(lines(old_slices@).len() == old_slices.len());
            assert(lines(included@).len() == included.len());
        }
        match slices(text.as_str()) {
            Some(slices) => {
                proof {
                    assert(lines(slices@).len() == slices.len());
                }
                Reader { phase: Phase::SlicePaths(0), result, primary, additional, text, slices, included }
            },
            None => Reader {
                phase: Phase::Failed(ReadError::Marker),
                result,
                primary,
                additional,
                text,
                slices: old_slices,
                included,
            },
        }
    }

    /// How reading ended: the record, or why there is none; nothing as long
    /// as the reader has a request.
    pub fn outcome(self) -> (outcome: Option<Result<ConfigFile, ReadError>>)
        ensures
            match self@.phase {
                Phase::Done => outcome matches Some(Ok(record)) && record@ == self@.result,
                Phase::Failed(error) => outcome matches Some(Err(e)) && e == error,
                _ => outcome is None,
            },
    {
        match self.phase {
            Phase::Done => Some(Ok(self.result)),
            Phase::Failed(error) => Some(Err(error)),
            _ => None,
        }
    }
}

/// Whether the expansion of the repositories of the Git step leaves what
/// `field` reads as it is.
pub open spec fn survives_expansion<T>(field: spec_fn(ConfigFileView) -> Option<T>) -> bool {
    forall|before: ConfigFileView, after: ConfigFileView| #[trigger]
        repos_expanded(before, after) ==> field(before) == field(after)
}

/// A slice wins over the fragments that it includes, and among these one that
/// is listed earlier wins over one that is listed later.
///
/// For a slice that lists `first` and then `second`: the reader loads `second`,
/// then `first`, then parses the slice itself, and folds the three records in
/// that order. A field that is merged by `Replace` then holds the value of the
/// slice; where the slice does not set it, that of `first`; where `first` does
/// not set it either, that of `second`.
pub proof fn law_include_precedence<T>(
    start: ReaderView,
    listed: ReaderView,
    second_loaded: ReaderView,
    first_loaded: ReaderView,
    end: ReaderView,
    slice: usize,
    first: Seq<char>,
    second: Seq<char>,
    own: ConfigFileView,
    of_first: ConfigFileView,
    of_second: ConfigFileView,
    field: spec_fn(ConfigFileView) -> Option<T>,
)
    requires
        start.phase == Phase::SlicePaths(slice),
        follows(start, ReplyView::Paths(Some(seq![first, second])), listed),
        follows(listed, ReplyView::Fragment(Some(of_second)), second_loaded),
        follows(second_loaded, ReplyView::Fragment(Some(of_first)), first_loaded),
        follows(first_loaded, ReplyView::Fragment(Some(own)), end),
        reads_replace_field(field),
        survives_expansion(field),
    ensures
        listed.request() matches RequestView::Load { path } && expands_to(second, path),
        second_loaded.request() matches RequestView::Load { path } && expands_to(first, path),
        first_loaded.request() == (RequestView::Parse { text: start.slices[slice as int] }),
        field(end.result) == replaced(
            replaced(replaced(field(start.result), field(of_second)), field(of_first)),
            field(own),
        ),
        field(own) is Some ==> field(end.result) == field(own),
        field(own) is None && field(of_first) is Some ==> field(end.result) == field(of_first),
        field(own) is None && field(of_first) is None && field(of_second) is Some ==> field(end.result) == field(
            of_second,
        ),
{
    let paths = seq![first, second];
    assert(paths.len() == 2);
    assert(paths.reverse()[0] == second);
    assert(paths.reverse()[1] == first);
    assert(listed.phase == Phase::Included(slice, 0));
    assert(second_loaded.phase == Phase::Included(slice, 1));
    assert(first_loaded.phase == Phase::SliceOwn(slice));
    let folded = ConfigFile::merged(
        ConfigFile::merged(ConfigFile::merged(start.result, of_second), of_first),
        own,
    );
    assert(first_loaded.absorbed(Some(own)) == folded);
    assert(end.result == folded || repos_expanded(folded, end.result));
}

/// The law above for one field, the answer to the questions of the steps.
pub proof fn law_include_precedence_of_assume_yes(
    start: ReaderView,
    listed: ReaderView,
    second_loaded: ReaderView,
    first_loaded: ReaderView,
    end: ReaderView,
    slice: usize,
    first: Seq<char>,
    second: Seq<char>,
    own: ConfigFileView,
    of_first: ConfigFileView,
    of_second: ConfigFileView,
)
    requires
        start.phase == Phase::SlicePaths(slice),
        follows(start, ReplyView::Paths(Some(seq![first, second])), listed),
        follows(listed, ReplyView::Fragment(Some(of_second)), second_loaded),
        follows(second_loaded, ReplyView::Fragment(Some(of_first)), first_loaded),
        follows(first_loaded, ReplyView::Fragment(Some(own)), end),
    ensures
        end.result.misc_settings().assume_yes == replaced(
            replaced(
                replaced(start.result.misc_settings().assume_yes, of_second.misc_settings().assume_yes),
                of_first.misc_settings().assume_yes,
            ),
            own.misc_settings().assume_yes,
        ),
{
    let field = |record: ConfigFileView| record.misc_settings().assume_yes;
    assert(reads_replace_field(field));
    assert(survives_expansion(field));
    law_include_precedence(
        start,
        listed,
        second_loaded,
        first_loaded,
        end,
        slice,
        first,
        second,
        own,
        of_first,
        of_second,
        field,
    );
}

/// Of two additional fragments the one that is loaded later wins.
///
/// The reader loads the additional fragments in the order in which it was
/// given them and folds their records in that order: a field that is merged by
/// `Replace` holds the value of the later fragment, and that of the earlier
/// one where the later one does not set it.
pub proof fn law_directory_order<T>(
    start: ReaderView,
    earlier_loaded: ReaderView,
    end: ReaderView,
    position: usize,
    earlier: ConfigFileView,
    later: ConfigFileView,
    field: spec_fn(ConfigFileView) -> Option<T>,
)
    requires
        start.phase == Phase::Directory(position),
        position < usize::MAX,
        position + 1 < start.additional.len(),
        follows(start, ReplyView::Fragment(Some(earlier)), earlier_loaded),
        follows(earlier_loaded, ReplyView::Fragment(Some(later)), end),
        reads_replace_field(field),
    ensures
        start.request() == (RequestView::Load { path: start.additional[position as int] }),
        earlier_loaded.request() == (RequestView::Load { path: start.additional[position + 1] }),
        end.result == ConfigFile::merged(ConfigFile::merged(start.result, earlier), later),
        field(end.result) == replaced(replaced(field(start.result), field(earlier)), field(later)),
        field(later) is Some ==> field(end.result) == field(later),
        field(later) is None && field(earlier) is Some ==> field(end.result) == field(earlier),
{
    assert(earlier_loaded.phase == Phase::Directory((position + 1) as usize));
}

/// A reader that has ended stays as it is, whatever it is told.
pub proof fn law_end_is_final(pre: ReaderView, reply: ReplyView, post: ReaderView)
    requires
        pre.request() == RequestView::Finished,
        follows(pre, reply, post),
    ensures
        post == pre,
{
}

} // verus!
