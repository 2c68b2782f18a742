//! Where the fragments of a run are found.
//!
//! The driver looks at the file system and reports what is there; which
//! fragment is the primary one, in what order the additional ones are loaded,
//! and whether a default fragment has to be written, is decided here.

use crate::fragment::characters;
use crate::strategy::lines;
use vstd::prelude::*;

verus! {

/// The name of the primary fragment, below the configuration directory.
pub const PRIMARY_NAME: &'static str = "topgrade.toml";

/// The name under which the primary fragment is looked for next.
pub const NESTED_PRIMARY_NAME: &'static str = "topgrade/topgrade.toml";

/// The name of the directory of the additional fragments, below the
/// configuration directory.
pub const ADDITIONAL_DIRECTORY: &'static str = "topgrade.d";

/// The names under which the primary fragment is looked for, the preferred
/// one first.
pub fn primary_names() -> (names: Vec<&'static str>)
    ensures
        names@.len() == 2,
        names@[0]@ == PRIMARY_NAME@,
        names@[1]@ == NESTED_PRIMARY_NAME@,
{
    let mut names: Vec<&'static str> = Vec::new();
    names.push(PRIMARY_NAME);
    names.push(NESTED_PRIMARY_NAME);
    names
}

/// The fragment that is written where a run finds none.
pub const DEFAULT_FRAGMENT: &'static str = "# Settings of the run. Every field is optional.\n\
#\n\
# Further fragments are loaded from the paths of a table of this form:\n\
#   [include]\n\
#   paths = [\"~/.config/more.toml\"]\n\
\n\
[misc]\n\
# Say yes to the questions of every step\n\
# assume_yes = true\n\
\n\
# Steps to leave out\n\
# disable = [\"system\", \"emacs\"]\n\
\n\
# Steps to run, where not all of them shall run\n\
# only = [\"system\", \"emacs\"]\n\
\n\
# Clean up temporary or old files\n\
# cleanup = true\n\
\n\
[git]\n\
# Further repositories to pull\n\
# repos = [\"~/src/*/\"]\n";

/// A place at which the primary fragment may lie.
#[derive(Debug)]
pub struct Candidate {
    pub path: String,
    /// Whether there is a file at the path.
    pub exists: bool,
}

/// The fragments of a run.
#[derive(Debug)]
pub struct Sources {
    /// The path of the primary fragment; empty where there is none.
    pub primary: String,
    /// The paths of the additional fragments, in the order of loading.
    pub additional: Vec<String>,
    /// Whether the primary fragment does not exist yet and is to be written
    /// from the default.
    pub write_default: bool,
}

/// Whether `a` comes before `b` in lexical order, or is `b`.
pub open spec fn precedes(a: Seq<char>, b: Seq<char>) -> bool
    decreases a.len(),
{
    if a.len() == 0 {
        true
    } else if b.len() == 0 {
        false
    } else if a[0] != b[0] {
        a[0] < b[0]
    } else {
        precedes(a.drop_first(), b.drop_first())
    }
}

/// Whether every path of the list precedes all that follow it.
pub open spec fn sorted(paths: Seq<Seq<char>>) -> bool {
    forall|i: int, j: int| 0 <= i <= j < paths.len() ==> precedes(paths[i], paths[j])
}

/// Whether none of the first `count` candidates exists.
pub open spec fn none_exists(candidates: Seq<Candidate>, count: int) -> bool {
    forall|i: int| 0 <= i < count ==> !(#[trigger] candidates[i]).exists
}

/// Of two paths one precedes the other.
pub proof fn lemma_precedes_total(a: Seq<char>, b: Seq<char>)
    ensures
        precedes(a, b) || precedes(b, a),
    decreases a.len(),
{
    if a.len() > 0 && b.len() > 0 && a[0] == b[0] {
        lemma_precedes_total(a.drop_first(), b.drop_first());
    }
}

/// What precedes a path precedes all that the path precedes.
pub proof fn lemma_precedes_transitive(a: Seq<char>, b: Seq<char>, c: Seq<char>)
    requires
        precedes(a, b),
        precedes(b, c),
    ensures
        precedes(a, c),
    decreases a.len(),
{
    if a.len() > 0 && b.len() > 0 && c.len() > 0 && a[0] == b[0] && b[0] == c[0] {
        lemma_precedes_transitive(a.drop_first(), b.drop_first(), c.drop_first());
    }
}

/// Two paths that precede each other are one path.
pub proof fn lemma_precedes_antisymmetric(a: Seq<char>, b: Seq<char>)
    requires
        precedes(a, b),
        precedes(b, a),
    ensures
        a == b,
    decreases a.len(),
{
    if a.len() > 0 && b.len() > 0 {
        lemma_precedes_antisymmetric(a.drop_first(), b.drop_first());
        assert(a =~= seq![a[0]] + a.drop_first());
        assert(b =~= seq![b[0]] + b.drop_first());
    } else {
        assert(a =~= b);
    }
}

/// Whether `a` comes before `b` in lexical order, or is `b`.
fn comes_first(a: &Vec<char>, b: &Vec<char>) -> (first: bool)
    ensures
        first == precedes(a@, b@),
{
    let mut at: usize = 0;
    proof {
        assert(a@.skip(0) =~= a@);
        assert(b@.skip(0) =~= b@);
    }
    while at < a.len() && at < b.len()
        invariant
            at <= a.len(),
            at <= b.len(),
            precedes(a@, b@) == precedes(a@.skip(at as int), b@.skip(at as int)),
        decreases a.len() - at,
    {
        proof {
            assert(a@.skip(at as int)[0] == a@[at as int]);
            assert(b@.skip(at as int)[0] == b@[at as int]);
            assert(a@.skip(at as int).drop_first() =~= a@.skip(at + 1));
            assert(b@.skip(at as int).drop_first() =~= b@.skip(at + 1));
        }
        if a[at] != b[at] {
            return a[at] < b[at];
        }
        at += 1;
    }
    at == a.len()
}

/// Puts a path into a sorted list: behind the paths that precede it and in
/// front of the others.
fn insert_sorted(list: &mut Vec<String>, path: String)
    requires
        sorted(lines(old(list)@)),
    ensures
        sorted(lines(final(list)@)),
        lines(final(list)@).to_multiset() == lines(old(list)@).to_multiset().insert(path@),
{
    let key = characters(path.as_str());
    let mut at: usize = 0;
    while at < list.len()
        invariant
            at <= list.len(),
            key@ == path@,
            *list == *old(list),
            forall|k: int| 0 <= k < at ==> precedes(#[trigger] lines(list@)[k], path@),
        ensures
            at <= list.len(),
            *list == *old(list),
            forall|k: int| 0 <= k < at ==> precedes(#[trigger] lines(list@)[k], path@),
            at < list.len() ==> !precedes(lines(list@)[at as int], path@),
        decreases list.len() - at,
    {
        let other = characters(list[at].as_str());
        if !comes_first(&other, &key) {
            break;
        }
        at += 1;
    }
    let ghost before = lines(list@);
    proof {
        if at < list.len() {
            lemma_precedes_total(before[at as int], path@);
            assert forall|j: int| at <= j < before.len() implies precedes(path@, before[j]) by {
                lemma_precedes_transitive(path@, before[at as int], before[j]);
            }
        }
    }
    list.insert(at, path);
    proof {
        let after = lines(list@);
        assert(after =~= before.insert(at as int, path@));
        assert forall|i: int, j: int| 0 <= i <= j < after.len() implies precedes(after[i], after[j]) by {
            if i == j {
                lemma_precedes_total(after[i], after[j]);
            } else if i == at {
                assert(after[j] == before[j - 1]);
            } else if j == at {
                assert(after[i] == before[i]);
            } else {
                let from = if i < at { i } else { i - 1 };
                let to = if j < at { j } else { j - 1 };
                assert(after[i] == before[from] && after[j] == before[to]);
            }
        }
        assert(after.remove(at as int) =~= before);
        assert(after.to_multiset() =~= before.to_multiset().insert(path@)) by {
            vstd::seq_lib::to_multiset_remove(after, at as int);
            after.to_multiset_ensures();
            assert(after.contains(after[at as int]));
        }
    }
}

/// Brings the paths of the additional fragments into the order of loading,
/// which is the lexical one.
pub fn sort_paths(paths: Vec<String>) -> (ordered: Vec<String>)
    ensures
        sorted(lines(ordered@)),
        lines(ordered@).to_multiset() == lines(paths@).to_multiset(),
{
    let mut ordered: Vec<String> = Vec::new();
    let mut at: usize = 0;
    proof {
        assert(lines(paths@).take(0) =~= Seq::empty());
        assert(lines(ordered@) =~= Seq::empty());
    }
    while at < paths.len()
        invariant
            at <= paths.len(),
            sorted(lines(ordered@)),
            lines(ordered@).to_multiset() == lines(paths@).take(at as int).to_multiset(),
        decreases paths.len() - at,
    {
        proof {
            assert(lines(paths@).take(at + 1) =~= lines(paths@).take(at as int).push(paths@[at as int]@));
            vstd::seq_lib::to_multiset_build(lines(paths@).take(at as int), paths@[at as int]@);
        }
        insert_sorted(&mut ordered, paths[at].clone());
        at += 1;
    }
    proof {
        assert(lines(paths@).take(at as int) =~= lines(paths@));
    }
    ordered
}

/// The additional fragments of a run. `listing` holds the files of their
/// directory in any order, and is nothing where the directory does not exist:
/// then there are no such fragments and the directory is to be created, which
/// the second part of the result says.
pub fn ensure_topgrade_d(listing: Option<Vec<String>>) -> (found: (Vec<String>, bool))
    ensures
        match listing {
            Some(files) => {
                &&& sorted(lines(found.0@))
                &&& lines(found.0@).to_multiset() == lines(files@).to_multiset()
                &&& !found.1
            },
            None => found.0@.len() == 0 && found.1,
        },
{
    match listing {
        Some(files) => (sort_paths(files), false),
        None => (Vec::new(), true),
    }
}

/// The fragments of a run.
///
/// The primary fragment is the first candidate that exists. Where none exists
/// and there is no additional fragment either, it is the first candidate, to be
/// written from the default. Where none exists but there are additional
/// fragments, there is no primary fragment.
pub fn ensure(candidates: Vec<Candidate>, additional: Vec<String>) -> (sources: Sources)
    ensures
        sources.additional == additional,
        forall|i: int|
            0 <= i < candidates@.len() && (#[trigger] candidates@[i]).exists && none_exists(candidates@, i) ==> {
                &&& sources.primary == candidates@[i].path
                &&& !sources.write_default
            },
        none_exists(candidates@, candidates@.len() as int) ==> {
            if candidates@.len() > 0 && additional@.len() == 0 {
                &&& sources.primary == candidates@[0].path
                &&& sources.write_default
            } else {
                &&& sources.primary@.len() == 0
                &&& !sources.write_default
            }
        },
{
    let mut at: usize = 0;
    while at < candidates.len() && !candidates[at].exists
        invariant
            at <= candidates.len(),
            none_exists(candidates@, at as int),
        decreases candidates.len() - at,
    {
        at += 1;
    }
    if at < candidates.len() {
        Sources { primary: candidates[at].path.clone(), additional, write_default: false }
    } else if candidates.len() > 0 && additional.len() == 0 {
        Sources { primary: candidates[0].path.clone(), additional, write_default: true }
    } else {
        Sources { primary: String::new(), additional, write_default: false }
    }
}

/// The order of loading is fixed by the paths alone: two sorted lists of the
/// same paths are one list.
pub proof fn law_order_is_unique(a: Seq<Seq<char>>, b: Seq<Seq<char>>)
    requires
        sorted(a),
        sorted(b),
        a.to_multiset() == b.to_multiset(),
    ensures
        a == b,
    decreases a.len(),
{
    a.to_multiset_ensures();
    b.to_multiset_ensures();
    if a.len() > 0 {
        assert(b.len() > 0);
        // Each list holds the first path of the other, so that the two first
        // paths precede each other.
        assert(b.to_multiset().count(a[0]) > 0);
        assert(a.to_multiset().count(b[0]) > 0);
        assert(b.contains(a[0]) && a.contains(b[0]));
        lemma_precedes_antisymmetric(a[0], b[0]);
        vstd::seq_lib::to_multiset_remove(a, 0);
        vstd::seq_lib::to_multiset_remove(b, 0);
        assert(a.remove(0) =~= a.drop_first());
        assert(b.remove(0) =~= b.drop_first());
        assert(sorted(a.drop_first())) by {
            assert forall|i: int, j: int| 0 <= i <= j < a.drop_first().len() implies precedes(
                a.drop_first()[i],
                a.drop_first()[j],
            ) by {
                assert(precedes(a[i + 1], a[j + 1]));
            }
        }
        assert(sorted(b.drop_first())) by {
            assert forall|i: int, j: int| 0 <= i <= j < b.drop_first().len() implies precedes(
                b.drop_first()[i],
                b.drop_first()[j],
            ) by {
                assert(precedes(b[i + 1], b[j + 1]));
            }
        }
        law_order_is_unique(a.drop_first(), b.drop_first());
        assert(a =~= seq![a[0]] + a.drop_first());
        assert(b =~= seq![b[0]] + b.drop_first());
    } else {
        assert(b.len() == 0);
        assert(a =~= b);
    }
}

} // verus!
